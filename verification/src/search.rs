//! The search for the next station.
//!
//! A search is a conversation with the chip, and this module holds its side of
//! it without touching the bus. [`TEA5767::search_up`] and
//! [`TEA5767::search_down`] open it. Each step hands the caller at most one
//! frame to write and says what follows: the next step at once
//! ([`TEA5767::search_next`]), the next step on a frame read from the chip
//! ([`TEA5767::search_poll`]), or nothing, because the search has ended. The
//! settings move with each frame as it is built, never further, so that a
//! caller who gives up on a failed transfer finds them one frame ahead of the
//! chip at most.

use crate::defs::{
    BandLimits, MuteChannel, SearchAdcLevel, SearchModeDirection, SearchState, SearchStatus,
    BAND_LIMITS_EUROPE_US, BAND_LIMITS_JAPANESE, FREQUENCY_STEP, TEA5767,
};
use crate::device::{lemma_divisor_has_fourteen_bits, lemma_same_frame};
use vstd::prelude::*;

verus! {

/// What follows a step of a search, once its frame is written.
#[derive(Debug, Clone, Copy, PartialEq, Eq, Structural)]
pub enum SearchNext {
    /// The next step, at once.
    Continue,
    /// A frame read from the chip, and the next step on it.
    Read,
    /// Nothing: the search has ended, in this way.
    Done(SearchStatus),
}

/// What one step of a search asks of the caller.
#[derive(Debug, Clone, Copy, PartialEq, Eq)]
pub struct SearchStep {
    /// The frame to write to the chip now, if there is one.
    pub frame: Option<[u8; 5]>,
    /// What follows once the frame is written.
    pub next: SearchNext,
}

impl SearchStep {
    /// The frame to write, as the sequence of its bytes.
    pub open spec fn written(self) -> Option<Seq<u8>> {
        match self.frame {
            Some(frame) => Some(frame@),
            None => None,
        }
    }
}

/// What one step of a search comes to: the settings after it, the frame to
/// write, if any, and what follows.
pub ghost struct SearchOutcome {
    pub state: TEA5767,
    pub frame: Option<Seq<u8>>,
    pub next: SearchNext,
}

/// Whether a frame written to the chip asks it to search: bit 6 of its first
/// byte.
pub open spec fn asks_to_search(frame: Seq<u8>) -> bool {
    frame[0] % 128 >= 64
}

impl TEA5767 {
    /// Whether a search waits for its next step without a frame read.
    pub open spec fn awaits_next(self) -> bool {
        self.search_state is Started || self.search_state is Muted || self.search_state
            == SearchState::Withdrawn
    }

    /// Whether a search waits for a frame read from the chip.
    pub open spec fn awaits_read(self) -> bool {
        self.search_state == SearchState::Seeking || self.search_state == SearchState::Polling
    }

    /// Whether a search is under way.
    pub open spec fn searching(self) -> bool {
        self.awaits_next() || self.awaits_read()
    }

    /// Whether a search is under way and has muted the channels already.
    pub open spec fn searching_muted(self) -> bool {
        self.search_state is Muted || self.search_state == SearchState::Seeking
            || self.search_state == SearchState::Polling || self.search_state
            == SearchState::Withdrawn
    }

    /// Whether the frequency has reached the band's limit in `direction`.
    pub open spec fn at_limit(self, direction: SearchModeDirection) -> bool {
        match direction {
            SearchModeDirection::Up => self.frequency >= self.band_limits.high(),
            SearchModeDirection::Down => self.frequency <= self.band_limits.low(),
        }
    }

    /// The frequency from which the chip is told to search: one step beyond
    /// `output_frequency`, where it stands, in the direction of the search.
    pub open spec fn search_origin(self, output_frequency: i64) -> int {
        match self.search_mode_dir {
            SearchModeDirection::Up => output_frequency + FREQUENCY_STEP,
            SearchModeDirection::Down => output_frequency - FREQUENCY_STEP,
        }
    }

    /// The opening of a search: the start frequency is set and its frame built.
    /// Nothing else changes yet; the direction and the stop level wait in the
    /// state of the search. The next step follows at once.
    pub open spec fn search_opened(
        self,
        direction: SearchModeDirection,
        signal_level: SearchAdcLevel,
        from_frequency: i64,
    ) -> SearchOutcome {
        let tuning = TEA5767 { frequency: from_frequency, ..self };
        SearchOutcome {
            state: TEA5767 {
                search_state: SearchState::Started(direction, signal_level),
                ..tuning.uploaded()
            },
            frame: Some(tuning.write_frame()),
            next: SearchNext::Continue,
        }
    }

    /// What a step without a frame read leads to.
    ///
    /// After the start frequency, both channels are muted, with a frame.
    ///
    /// After the muting, the direction and the stop level are noted. Where the
    /// frequency then lies at the band's limit in that direction, the search
    /// ends there without a station, and the channels are let through again
    /// with a frame. Where it does not, no frame is built, and a frame is to be
    /// read.
    ///
    /// After the request to search was taken back at the band limit, the
    /// channels are let through again with a frame, and the search has ended
    /// without a station.
    pub open spec fn search_continued(self) -> SearchOutcome
        recommends
            self.awaits_next(),
    {
        match self.search_state {
            SearchState::Started(direction, signal_level) => {
                let muting = TEA5767 { mute: MuteChannel::Both, ..self };
                SearchOutcome {
                    state: TEA5767 {
                        search_state: SearchState::Muted(direction, signal_level),
                        ..muting.uploaded()
                    },
                    frame: Some(muting.write_frame()),
                    next: SearchNext::Continue,
                }
            },
            SearchState::Muted(direction, signal_level) => {
                let noted = TEA5767 {
                    search_adc_level: signal_level,
                    search_mode_dir: direction,
                    ..self
                };
                if noted.at_limit(direction) {
                    let unmuting = TEA5767 { mute: MuteChannel::Neither, ..noted };
                    SearchOutcome {
                        state: TEA5767 {
                            search_state: SearchState::BandLimitReached,
                            ..unmuting.uploaded()
                        },
                        frame: Some(unmuting.write_frame()),
                        next: SearchNext::Done(SearchStatus::Failure),
                    }
                } else {
                    SearchOutcome {
                        state: TEA5767 { search_state: SearchState::Seeking, ..noted },
                        frame: None,
                        next: SearchNext::Read,
                    }
                }
            },
            SearchState::Withdrawn => {
                let unmuting = TEA5767 { mute: MuteChannel::Neither, ..self };
                SearchOutcome {
                    state: TEA5767 {
                        search_state: SearchState::BandLimitReached,
                        ..unmuting.uploaded()
                    },
                    frame: Some(unmuting.write_frame()),
                    next: SearchNext::Done(SearchStatus::Failure),
                }
            },
            _ => SearchOutcome { state: self, frame: None, next: SearchNext::Continue },
        }
    }

    /// What a frame read during a search leads to.
    ///
    /// The first frame tells where the chip stands. The chip is sent one step
    /// beyond, with the request to search from there, and a frame is to be
    /// read again.
    ///
    /// After that, a frame that is not ready changes nothing and builds no
    /// frame; a frame is to be read again. A ready frame that reports the band
    /// limit has the request to search taken back with a frame; the channels
    /// stay muted, and the next step follows at once. Any other ready frame
    /// ends the search on a station: the chip's frequency is taken over as the
    /// one tuned to, and the channels are let through again, with one frame.
    pub open spec fn search_polled(self, read_bytes: Seq<u8>) -> SearchOutcome
        recommends
            self.awaits_read(),
    {
        let flags = self.read_flags(read_bytes);
        if self.search_state == SearchState::Seeking {
            let seeking = TEA5767 {
                frequency: self.search_origin(flags.output_frequency) as i64,
                search_mode: true,
                ..self
            };
            SearchOutcome {
                state: TEA5767 { search_state: SearchState::Polling, ..seeking.uploaded() },
                frame: Some(seeking.write_frame()),
                next: SearchNext::Read,
            }
        } else if !flags.ready_flag {
            SearchOutcome { state: self, frame: None, next: SearchNext::Read }
        } else if flags.band_limit_flag {
            let clearing = TEA5767 { search_mode: false, ..self };
            SearchOutcome {
                state: TEA5767 { search_state: SearchState::Withdrawn, ..clearing.uploaded() },
                frame: Some(clearing.write_frame()),
                next: SearchNext::Continue,
            }
        } else {
            let settling = TEA5767 {
                search_mode: false,
                frequency: flags.output_frequency,
                mute: MuteChannel::Neither,
                ..self
            };
            SearchOutcome {
                state: TEA5767 { search_state: SearchState::Found, ..settling.uploaded() },
                frame: Some(settling.write_frame()),
                next: SearchNext::Done(SearchStatus::Success),
            }
        }
    }

    /// Sets the start frequency and builds its frame.
    fn open_search(
        &mut self,
        direction: SearchModeDirection,
        signal_level: SearchAdcLevel,
        from_frequency: i64,
    ) -> (step: SearchStep)
        ensures
            *final(self) == old(self).search_opened(direction, signal_level, from_frequency).state,
            step.written() == old(self).search_opened(
                direction,
                signal_level,
                from_frequency,
            ).frame,
            step.next == old(self).search_opened(direction, signal_level, from_frequency).next,
    {
        let write_bytes = self.set_frequency(from_frequency);
        self.search_state = SearchState::Started(direction, signal_level);
        SearchStep { frame: Some(write_bytes), next: SearchNext::Continue }
    }

    /// Opens a search for the next station above `from_frequency`, in hertz,
    /// that comes in at `signal_level` or better.
    pub fn search_up(&mut self, signal_level: SearchAdcLevel, from_frequency: i64) -> (step:
        SearchStep)
        ensures
            *final(self) == old(self).search_opened(
                SearchModeDirection::Up,
                signal_level,
                from_frequency,
            ).state,
            step.written() == old(self).search_opened(
                SearchModeDirection::Up,
                signal_level,
                from_frequency,
            ).frame,
            step.next == old(self).search_opened(
                SearchModeDirection::Up,
                signal_level,
                from_frequency,
            ).next,
            final(self).settled(),
    {
        self.open_search(SearchModeDirection::Up, signal_level, from_frequency)
    }

    /// Opens a search for the next station below `from_frequency`, in hertz,
    /// that comes in at `signal_level` or better.
    pub fn search_down(&mut self, signal_level: SearchAdcLevel, from_frequency: i64) -> (step:
        SearchStep)
        ensures
            *final(self) == old(self).search_opened(
                SearchModeDirection::Down,
                signal_level,
                from_frequency,
            ).state,
            step.written() == old(self).search_opened(
                SearchModeDirection::Down,
                signal_level,
                from_frequency,
            ).frame,
            step.next == old(self).search_opened(
                SearchModeDirection::Down,
                signal_level,
                from_frequency,
            ).next,
            final(self).settled(),
    {
        self.open_search(SearchModeDirection::Down, signal_level, from_frequency)
    }

    /// Mutes both channels.
    fn mute_for_search(
        &mut self,
        direction: SearchModeDirection,
        signal_level: SearchAdcLevel,
    ) -> (step: SearchStep)
        ensures
            *final(self) == (TEA5767 {
                search_state: SearchState::Muted(direction, signal_level),
                ..(TEA5767 { mute: MuteChannel::Both, ..*old(self) }).uploaded()
            }),
            step.written() == Some(
                (TEA5767 { mute: MuteChannel::Both, ..*old(self) }).write_frame(),
            ),
            step.next == SearchNext::Continue,
    {
        let write_bytes = self.mute();
        self.search_state = SearchState::Muted(direction, signal_level);
        SearchStep { frame: Some(write_bytes), next: SearchNext::Continue }
    }

    /// Tells whether the frequency has reached the band's limit in `direction`.
    fn is_at_limit(&self, direction: SearchModeDirection) -> (reached: bool)
        ensures
            reached == self.at_limit(direction),
    {
        let limits = match self.band_limits {
            BandLimits::EuropeUS => BAND_LIMITS_EUROPE_US,
            BandLimits::Japanese => BAND_LIMITS_JAPANESE,
        };
        match direction {
            SearchModeDirection::Up => self.frequency >= limits.1,
            SearchModeDirection::Down => self.frequency <= limits.0,
        }
    }

    /// Notes the direction and the stop level of the search.
    fn note(&mut self, direction: SearchModeDirection, signal_level: SearchAdcLevel)
        ensures
            *final(self) == (TEA5767 {
                search_adc_level: signal_level,
                search_mode_dir: direction,
                ..*old(self)
            }),
    {
        self.search_adc_level = signal_level;
        self.search_mode_dir = direction;
    }

    /// Ends a search at the band limit: lets both channels through again.
    fn end_at_limit(&mut self) -> (step: SearchStep)
        ensures
            *final(self) == (TEA5767 {
                search_state: SearchState::BandLimitReached,
                ..(TEA5767 { mute: MuteChannel::Neither, ..*old(self) }).uploaded()
            }),
            step.written() == Some(
                (TEA5767 { mute: MuteChannel::Neither, ..*old(self) }).write_frame(),
            ),
            step.next == SearchNext::Done(SearchStatus::Failure),
    {
        let write_bytes = self.unmute();
        self.search_state = SearchState::BandLimitReached;
        SearchStep { frame: Some(write_bytes), next: SearchNext::Done(SearchStatus::Failure) }
    }

    /// Notes that the next frame read tells where the chip stands.
    fn await_first_frame(&mut self) -> (step: SearchStep)
        ensures
            *final(self) == (TEA5767 { search_state: SearchState::Seeking, ..*old(self) }),
            step.written() is None,
            step.next == SearchNext::Read,
    {
        self.search_state = SearchState::Seeking;
        SearchStep { frame: None, next: SearchNext::Read }
    }

    /// Notes the direction and the stop level, and either ends the search at the
    /// band limit or goes on to read.
    fn note_for_search(
        &mut self,
        direction: SearchModeDirection,
        signal_level: SearchAdcLevel,
    ) -> (step: SearchStep)
        requires
            old(self).search_state == SearchState::Muted(direction, signal_level),
        ensures
            *final(self) == old(self).search_continued().state,
            step.written() == old(self).search_continued().frame,
            step.next == old(self).search_continued().next,
            old(self).settled() ==> final(self).settled(),
    {
        self.note(direction, signal_level);
        if self.is_at_limit(direction) {
            self.end_at_limit()
        } else {
            self.await_first_frame()
        }
    }

    /// Takes the step that follows the start frequency.
    fn next_started(
        &mut self,
        direction: SearchModeDirection,
        signal_level: SearchAdcLevel,
    ) -> (step: SearchStep)
        requires
            old(self).search_state == SearchState::Started(direction, signal_level),
        ensures
            *final(self) == old(self).search_continued().state,
            step.written() == old(self).search_continued().frame,
            step.next == old(self).search_continued().next,
            final(self).settled(),
    {
        self.mute_for_search(direction, signal_level)
    }

    /// Takes the step that follows the taking back of the request to search.
    fn next_withdrawn(&mut self) -> (step: SearchStep)
        requires
            old(self).search_state == SearchState::Withdrawn,
        ensures
            *final(self) == old(self).search_continued().state,
            step.written() == old(self).search_continued().frame,
            step.next == old(self).search_continued().next,
            final(self).settled(),
    {
        self.end_at_limit()
    }

    /// Takes a search one step further without a frame read. Returns `None`,
    /// and changes nothing, where no search waits for that.
    pub fn search_next(&mut self) -> (step: Option<SearchStep>)
        ensures
            step is Some <==> old(self).awaits_next(),
            step is None ==> *final(self) == *old(self),
            step matches Some(s) ==> {
                &&& *final(self) == old(self).search_continued().state
                &&& s.written() == old(self).search_continued().frame
                &&& s.next == old(self).search_continued().next
            },
            old(self).settled() ==> final(self).settled(),
    {
        match self.search_state {
            SearchState::Started(direction, signal_level) => Some(
                self.next_started(direction, signal_level),
            ),
            SearchState::Muted(direction, signal_level) => Some(
                self.note_for_search(direction, signal_level),
            ),
            SearchState::Withdrawn => Some(self.next_withdrawn()),
            _ => None,
        }
    }

    /// Sends the chip one step beyond where it stands, to search from there.
    fn seek(&mut self, output_frequency: i64) -> (step: SearchStep)
        requires
            -2 * FREQUENCY_STEP <= output_frequency <= 2050 * FREQUENCY_STEP,
        ensures
            *final(self) == (TEA5767 {
                search_state: SearchState::Polling,
                ..(TEA5767 {
                    frequency: old(self).search_origin(output_frequency) as i64,
                    search_mode: true,
                    ..*old(self)
                }).uploaded()
            }),
            step.written() == Some(
                (TEA5767 {
                    frequency: old(self).search_origin(output_frequency) as i64,
                    search_mode: true,
                    ..*old(self)
                }).write_frame(),
            ),
            step.next == SearchNext::Read,
    {
        self.frequency = match self.search_mode_dir {
            SearchModeDirection::Up => output_frequency + FREQUENCY_STEP,
            SearchModeDirection::Down => output_frequency - FREQUENCY_STEP,
        };
        self.search_mode = true;
        let write_bytes = self.upload();
        self.search_state = SearchState::Polling;
        SearchStep { frame: Some(write_bytes), next: SearchNext::Read }
    }

    /// Takes the request to search back; the channels stay muted.
    fn withdraw(&mut self) -> (step: SearchStep)
        ensures
            *final(self) == (TEA5767 {
                search_state: SearchState::Withdrawn,
                ..(TEA5767 { search_mode: false, ..*old(self) }).uploaded()
            }),
            step.written() == Some((TEA5767 { search_mode: false, ..*old(self) }).write_frame()),
            step.next == SearchNext::Continue,
    {
        self.search_mode = false;
        let write_bytes = self.upload();
        self.search_state = SearchState::Withdrawn;
        SearchStep { frame: Some(write_bytes), next: SearchNext::Continue }
    }

    /// Ends the search on the station that the chip stands at.
    fn settle(&mut self, output_frequency: i64) -> (step: SearchStep)
        ensures
            *final(self) == (TEA5767 {
                search_state: SearchState::Found,
                ..(TEA5767 {
                    search_mode: false,
                    frequency: output_frequency,
                    mute: MuteChannel::Neither,
                    ..*old(self)
                }).uploaded()
            }),
            step.written() == Some(
                (TEA5767 {
                    search_mode: false,
                    frequency: output_frequency,
                    mute: MuteChannel::Neither,
                    ..*old(self)
                }).write_frame(),
            ),
            step.next == SearchNext::Done(SearchStatus::Success),
    {
        self.search_mode = false;
        self.frequency = output_frequency;
        let write_bytes = self.unmute();
        self.search_state = SearchState::Found;
        SearchStep { frame: Some(write_bytes), next: SearchNext::Done(SearchStatus::Success) }
    }

    /// Answers the first frame read in a search.
    fn poll_seeking(&mut self, read_bytes: [u8; 5]) -> (step: SearchStep)
        requires
            old(self).search_state == SearchState::Seeking,
        ensures
            *final(self) == old(self).search_polled(read_bytes@).state,
            step.written() == old(self).search_polled(read_bytes@).frame,
            step.next == old(self).search_polled(read_bytes@).next,
            final(self).settled(),
    {
        let flags = self.download(read_bytes);
        self.seek(flags.output_frequency)
    }

    /// Answers a later frame read in a search.
    fn poll_polling(&mut self, read_bytes: [u8; 5]) -> (step: SearchStep)
        requires
            old(self).search_state == SearchState::Polling,
        ensures
            *final(self) == old(self).search_polled(read_bytes@).state,
            step.written() == old(self).search_polled(read_bytes@).frame,
            step.next == old(self).search_polled(read_bytes@).next,
            old(self).settled() ==> final(self).settled(),
    {
        let flags = self.download(read_bytes);
        if !flags.ready_flag {
            SearchStep { frame: None, next: SearchNext::Read }
        } else if flags.band_limit_flag {
            self.withdraw()
        } else {
            self.settle(flags.output_frequency)
        }
    }

    /// Takes a search one step further on a frame read: `read_bytes` is what
    /// the caller has just read from the chip. Returns `None`, and changes
    /// nothing, where no search waits for a frame.
    pub fn search_poll(&mut self, read_bytes: [u8; 5]) -> (step: Option<SearchStep>)
        ensures
            step is Some <==> old(self).awaits_read(),
            step is None ==> *final(self) == *old(self),
            step matches Some(s) ==> {
                &&& *final(self) == old(self).search_polled(read_bytes@).state
                &&& s.written() == old(self).search_polled(read_bytes@).frame
                &&& s.next == old(self).search_polled(read_bytes@).next
            },
            old(self).settled() ==> final(self).settled(),
    {
        match self.search_state {
            SearchState::Seeking => Some(self.poll_seeking(read_bytes)),
            SearchState::Polling => Some(self.poll_polling(read_bytes)),
            _ => None,
        }
    }
}

/// What a step says is to follow goes with the state it leaves: the next step
/// at once where the search waits for that, a read where it waits for a frame,
/// success with a station found, and failure with the band limit reached.
pub open spec fn next_follows_state(outcome: SearchOutcome) -> bool {
    &&& outcome.next == SearchNext::Continue <==> outcome.state.awaits_next()
    &&& outcome.next == SearchNext::Read <==> outcome.state.awaits_read()
    &&& outcome.next == SearchNext::Done(SearchStatus::Success) <==> outcome.state.search_state
        == SearchState::Found
    &&& outcome.next == SearchNext::Done(SearchStatus::Failure) <==> outcome.state.search_state
        == SearchState::BandLimitReached
}

/// Every step of a search says what the state it leaves waits for.
pub proof fn lemma_next_follows_state(
    state: TEA5767,
    direction: SearchModeDirection,
    signal_level: SearchAdcLevel,
    from_frequency: i64,
    read_bytes: Seq<u8>,
)
    ensures
        next_follows_state(state.search_opened(direction, signal_level, from_frequency)),
        state.awaits_next() ==> next_follows_state(state.search_continued()),
        state.awaits_read() ==> next_follows_state(state.search_polled(read_bytes)),
{
}

/// Whether a frame is the one of the settings but for the request to search,
/// which goes out with one frame and is taken back from the settings as that
/// frame is built.
pub open spec fn frame_of(frame: Seq<u8>, state: TEA5767) -> bool {
    frame == (TEA5767 { search_mode: asks_to_search(frame), ..state }).write_frame()
}

/// A frame asks the chip to search exactly when the settings do.
pub proof fn lemma_search_bit(state: TEA5767)
    ensures
        asks_to_search(state.write_frame()) == state.search_mode,
{
    reveal(TEA5767::data_byte_1);
    lemma_divisor_has_fourteen_bits(
        state.injection_side,
        state.crystal_frequency,
        state.sent_frequency(),
    );
}

/// The frame built for some settings is the frame of those settings as they
/// stand once it is built, in whatever state the search is then.
pub proof fn lemma_frame_of_uploaded(sent: TEA5767, search_state: SearchState)
    ensures
        frame_of(sent.write_frame(), TEA5767 { search_state, ..sent.uploaded() }),
{
    lemma_search_bit(sent);
    lemma_same_frame(
        sent,
        TEA5767 { search_mode: sent.search_mode, search_state, ..sent.uploaded() },
    );
}

/// The opening of a search builds a frame and leaves the settings as that
/// frame has them.
pub proof fn lemma_opening_one_frame_ahead(
    state: TEA5767,
    direction: SearchModeDirection,
    signal_level: SearchAdcLevel,
    from_frequency: i64,
)
    ensures
        ({
            let opened = state.search_opened(direction, signal_level, from_frequency);
            opened.frame matches Some(frame) && frame_of(frame, opened.state)
        }),
{
    lemma_frame_of_uploaded(
        TEA5767 { frequency: from_frequency, ..state },
        SearchState::Started(direction, signal_level),
    );
}

/// A step of a search without a frame read, where it builds a frame, leaves
/// the settings as that frame has them: they are never more than that one
/// frame ahead of the chip.
pub proof fn lemma_next_one_frame_ahead(state: TEA5767)
    requires
        state.awaits_next(),
    ensures
        ({
            let continued = state.search_continued();
            continued.frame matches Some(frame) ==> frame_of(frame, continued.state)
        }),
{
    match state.search_state {
        SearchState::Started(direction, signal_level) => {
            lemma_frame_of_uploaded(
                TEA5767 { mute: MuteChannel::Both, ..state },
                SearchState::Muted(direction, signal_level),
            );
        },
        SearchState::Muted(direction, signal_level) => {
            let noted = TEA5767 {
                search_adc_level: signal_level,
                search_mode_dir: direction,
                ..state
            };
            if noted.at_limit(direction) {
                lemma_frame_of_uploaded(
                    TEA5767 { mute: MuteChannel::Neither, ..noted },
                    SearchState::BandLimitReached,
                );
            }
        },
        _ => {
            lemma_frame_of_uploaded(
                TEA5767 { mute: MuteChannel::Neither, ..state },
                SearchState::BandLimitReached,
            );
        },
    }
}

/// A step of a search on a frame read, where it builds a frame, leaves the
/// settings as that frame has them; where it builds none, it leaves them as
/// they were.
pub proof fn lemma_poll_one_frame_ahead(state: TEA5767, read_bytes: Seq<u8>)
    requires
        state.awaits_read(),
    ensures
        ({
            let polled = state.search_polled(read_bytes);
            &&& polled.frame matches Some(frame) ==> frame_of(frame, polled.state)
            &&& polled.frame is None ==> polled.state == state
        }),
{
    let flags = state.read_flags(read_bytes);
    if state.search_state == SearchState::Seeking {
        lemma_frame_of_uploaded(
            TEA5767 {
                frequency: state.search_origin(flags.output_frequency) as i64,
                search_mode: true,
                ..state
            },
            SearchState::Polling,
        );
    } else if flags.ready_flag && flags.band_limit_flag {
        lemma_frame_of_uploaded(TEA5767 { search_mode: false, ..state }, SearchState::Withdrawn);
    } else if flags.ready_flag {
        lemma_frame_of_uploaded(
            TEA5767 {
                search_mode: false,
                frequency: flags.output_frequency,
                mute: MuteChannel::Neither,
                ..state
            },
            SearchState::Found,
        );
    }
}

/// The opening of a search changes the frequency and nothing else that
/// travels: the mute setting, the stop level and the direction are as they
/// were.
pub proof fn lemma_opening_sets_frequency_only(
    state: TEA5767,
    direction: SearchModeDirection,
    signal_level: SearchAdcLevel,
    from_frequency: i64,
)
    ensures
        ({
            let opened = state.search_opened(direction, signal_level, from_frequency);
            opened.state == (TEA5767 {
                frequency: state.band_limits.clamp(from_frequency as int) as i64,
                search_mode: false,
                search_state: SearchState::Started(direction, signal_level),
                ..state
            })
        }),
{
}

/// A search mutes both channels with its second frame, keeps them muted while
/// it goes on, and lets them through again with its last frame and no sooner,
/// however it ends.
pub proof fn lemma_search_mutes(state: TEA5767, read_bytes: Seq<u8>)
    ensures
        state.awaits_next() ==> ({
            let continued = state.search_continued();
            &&& state.search_state is Started ==> continued.state.mute == MuteChannel::Both
            &&& !(state.search_state is Started) && continued.next is Done
                ==> continued.state.mute == MuteChannel::Neither
            &&& !(state.search_state is Started) && !(continued.next is Done)
                ==> continued.state.mute == state.mute
        }),
        state.awaits_read() ==> ({
            let polled = state.search_polled(read_bytes);
            &&& polled.next is Done ==> polled.state.mute == MuteChannel::Neither
            &&& !(polled.next is Done) ==> polled.state.mute == state.mute
        }),
{
}

/// No frame of a search asks the chip to search but the one that answers the
/// first frame read, which sends the chip one step beyond where it stands.
pub proof fn lemma_search_asks_once(
    state: TEA5767,
    direction: SearchModeDirection,
    signal_level: SearchAdcLevel,
    from_frequency: i64,
    read_bytes: Seq<u8>,
)
    requires
        !state.search_mode,
    ensures
        ({
            let opened = state.search_opened(direction, signal_level, from_frequency);
            &&& !opened.state.search_mode
            &&& opened.frame matches Some(frame) && !asks_to_search(frame)
        }),
        state.awaits_next() ==> ({
            let continued = state.search_continued();
            &&& !continued.state.search_mode
            &&& continued.frame matches Some(frame) ==> !asks_to_search(frame)
        }),
        state.awaits_read() ==> ({
            let polled = state.search_polled(read_bytes);
            &&& !polled.state.search_mode
            &&& polled.frame matches Some(frame) ==> (asks_to_search(frame) <==> state.search_state
                == SearchState::Seeking)
        }),
        state.search_state == SearchState::Seeking ==> state.search_polled(read_bytes).frame
            == Some(
            (TEA5767 {
                frequency: state.search_origin(
                    state.read_flags(read_bytes).output_frequency,
                ) as i64,
                search_mode: true,
                ..state
            }).write_frame(),
        ),
{
    lemma_search_bit(TEA5767 { frequency: from_frequency, ..state });
    if state.awaits_next() {
        match state.search_state {
            SearchState::Started(direction, signal_level) => {
                lemma_search_bit(TEA5767 { mute: MuteChannel::Both, ..state });
            },
            SearchState::Muted(direction, signal_level) => {
                let noted = TEA5767 {
                    search_adc_level: signal_level,
                    search_mode_dir: direction,
                    ..state
                };
                lemma_search_bit(TEA5767 { mute: MuteChannel::Neither, ..noted });
            },
            _ => {
                lemma_search_bit(TEA5767 { mute: MuteChannel::Neither, ..state });
            },
        }
    }
    if state.awaits_read() {
        let flags = state.read_flags(read_bytes);
        if state.search_state == SearchState::Seeking {
            lemma_search_bit(
                TEA5767 {
                    frequency: state.search_origin(flags.output_frequency) as i64,
                    search_mode: true,
                    ..state
                },
            );
        } else if flags.ready_flag && flags.band_limit_flag {
            lemma_search_bit(TEA5767 { search_mode: false, ..state });
        } else if flags.ready_flag {
            lemma_search_bit(
                TEA5767 {
                    search_mode: false,
                    frequency: flags.output_frequency,
                    mute: MuteChannel::Neither,
                    ..state
                },
            );
        }
    }
}

/// A ready frame ends the wait of a search. Where it reports the band limit,
/// the request to search is taken back and the next step, which follows at
/// once, ends the search without a station. Where it does not, the search has
/// ended on a station, and the frequency tuned to is the one that the frame
/// reports, held within the band. A frame that is not ready changes nothing.
/// No step changes what the reading of a frame depends on, so the same frame
/// read again reports the same.
pub proof fn lemma_ready_frame_ends_search(state: TEA5767, read_bytes: Seq<u8>)
    requires
        state.search_state == SearchState::Polling,
    ensures
        ({
            let polled = state.search_polled(read_bytes);
            let flags = state.read_flags(read_bytes);
            &&& polled.state.read_flags(read_bytes) == flags
            &&& !flags.ready_flag ==> polled.state == state && polled.frame is None && polled.next
                == SearchNext::Read
            &&& flags.ready_flag && flags.band_limit_flag ==> polled.next == SearchNext::Continue
                && polled.state.search_continued().next == SearchNext::Done(
                SearchStatus::Failure,
            ) && polled.state.search_continued().state.read_flags(read_bytes) == flags
            &&& flags.ready_flag && !flags.band_limit_flag ==> polled.next == SearchNext::Done(
                SearchStatus::Success,
            ) && polled.state.frequency == state.band_limits.clamp(
                flags.output_frequency as int,
            )
        }),
{
}

} // verus!
