//! The tuner's settings and the values they can take.
//!
//! Frequencies are whole hertz in an `i64`. They are signed because the
//! frequency that a small divisor stands for under high-side injection lies
//! below zero.

use vstd::prelude::*;

verus! {

/// What the chip is to be set to, and how far a station search has come.
///
/// Nothing here touches the bus. Each operation that changes a setting returns
/// the frame that carries the change; the caller writes it to the chip at
/// [`DEVICE_ADDRESS`](crate::regs::DEVICE_ADDRESS). Each operation that reads
/// the chip takes the frame that the caller read there.
#[derive(Debug, Clone, Copy, PartialEq, Eq, Structural)]
pub struct TEA5767 {
    /// Bus address of the chip.
    pub address: u8,
    /// Frequency to tune to, in hertz.
    pub frequency: i64,
    /// Band within which the frequency is held.
    pub band_limits: BandLimits,
    /// Whether the chip is put to sleep.
    pub standby: bool,
    /// Which audio channels are silenced.
    pub mute: MuteChannel,
    /// Whether weak signals are faded out.
    pub soft_mute: bool,
    /// Whether the next frame asks the chip to search.
    pub search_mode: bool,
    /// Direction of a search.
    pub search_mode_dir: SearchModeDirection,
    /// Signal level at which a search stops.
    pub search_adc_level: SearchAdcLevel,
    /// Side of the station on which the local oscillator runs.
    pub injection_side: InjectionSide,
    /// Stereo, or forced mono.
    pub sound_mode: SoundMode,
    /// Whether high audio frequencies are cut on weak signals.
    pub high_cut_control: bool,
    /// Whether stereo noise cancelling is on.
    pub stereo_noise_canceling: bool,
    /// Clock that the chip's synthesizer is fed from.
    pub crystal_frequency: CrystalFrequency,
    /// Level of the first software programmable output.
    pub software_programmable_port1: bool,
    /// Level of the second software programmable output.
    pub software_programmable_port2: bool,
    /// Whether the first programmable output shows the ready flag instead.
    pub search_indicator: bool,
    /// Time constant of the de-emphasis filter.
    pub deemphasis_time: DeemphasisTime,
    /// How far a station search has come.
    pub search_state: SearchState,
}

#[derive(Debug, Clone, Copy, PartialEq, Eq, Structural)]
pub enum SearchModeDirection {
    /// Towards higher frequencies; the default.
    Up,
    /// Towards lower frequencies.
    Down,
}

#[derive(Debug, Clone, Copy, PartialEq, Eq, Structural)]
pub enum SearchAdcLevel {
    /// Stop at a converter output of 5.
    Low,
    /// Stop at a converter output of 7.
    Mid,
    /// Stop at a converter output of 10.
    High,
}

#[derive(Debug, Clone, Copy, PartialEq, Eq, Structural)]
pub enum InjectionSide {
    /// The local oscillator runs below the station.
    LowSide,
    /// The local oscillator runs above the station.
    HighSide,
}

#[derive(Debug, Clone, Copy, PartialEq, Eq, Structural)]
pub enum SoundMode {
    Stereo,
    Mono,
}

#[derive(Debug, Clone, Copy, PartialEq, Eq, Structural)]
pub enum MuteChannel {
    /// Only the right channel is silent.
    Right,
    /// Only the left channel is silent.
    Left,
    /// Both channels are silent.
    Both,
    /// Both channels sound.
    Neither,
}

#[derive(Debug, Clone, Copy, PartialEq, Eq, Structural)]
pub enum BandLimits {
    /// 76 MHz to 91 MHz.
    Japanese,
    /// 87.5 MHz to 108 MHz.
    EuropeUS,
}

#[derive(Debug, Clone, Copy, PartialEq, Eq, Structural)]
pub enum CrystalFrequency {
    /// A 13 MHz crystal.
    Clk13Mhz,
    /// A 32.768 kHz crystal.
    Clk32_768Khz,
    /// A 6.5 MHz reference.
    Clk6_5MHz,
}

#[derive(Debug, Clone, Copy, PartialEq, Eq, Structural)]
pub enum DeemphasisTime {
    /// 75 microseconds.
    Dtc75,
    /// 50 microseconds.
    Dtc50,
}

#[derive(Debug, Clone, Copy, PartialEq, Eq, Structural)]
pub enum SearchStatus {
    /// A station was found.
    Success,
    /// No station was found before the band limit.
    Failure,
}

/// How far a station search has come. A search moves on by one frame at a
/// time, written or read, so that the settings are never more than the one
/// frame ahead of the chip that the caller has yet to write.
#[derive(Debug, Clone, Copy, PartialEq, Eq, Structural)]
pub enum SearchState {
    /// No search was started yet.
    Idle,
    /// The frame with the start frequency was built. Muting comes next; the
    /// direction and the stop level asked for wait here until the channels
    /// are muted.
    Started(SearchModeDirection, SearchAdcLevel),
    /// The frame that mutes both channels was built. The direction and the
    /// stop level are noted next.
    Muted(SearchModeDirection, SearchAdcLevel),
    /// The next frame read tells where the chip stands.
    Seeking,
    /// The frame that asks the chip to search was built; frames are read until
    /// one is ready.
    Polling,
    /// A ready frame reported the band limit, and the frame that takes the
    /// request to search back was built. Unmuting comes next.
    Withdrawn,
    /// The last search ended on a station.
    Found,
    /// The last search ended at the band limit.
    BandLimitReached,
}

/// Lowest and highest frequency of the European and US band, in hertz.
pub const BAND_LIMITS_EUROPE_US: (i64, i64) = (87_500_000, 108_000_000);

/// Lowest and highest frequency of the Japanese band, in hertz.
pub const BAND_LIMITS_JAPANESE: (i64, i64) = (76_000_000, 91_000_000);

/// Distance between the station and the local oscillator, in hertz.
pub const INTERMEDIATE_FREQUENCY: i64 = 225_000;

/// Step by which a search leaves the frequency the chip stands at, and the
/// grain of a reported frequency, in hertz.
pub const FREQUENCY_STEP: i64 = 100_000;

impl BandLimits {
    /// Lowest frequency of the band, in hertz.
    pub open spec fn low(self) -> int {
        match self {
            BandLimits::EuropeUS => BAND_LIMITS_EUROPE_US.0 as int,
            BandLimits::Japanese => BAND_LIMITS_JAPANESE.0 as int,
        }
    }

    /// Highest frequency of the band, in hertz.
    pub open spec fn high(self) -> int {
        match self {
            BandLimits::EuropeUS => BAND_LIMITS_EUROPE_US.1 as int,
            BandLimits::Japanese => BAND_LIMITS_JAPANESE.1 as int,
        }
    }

    /// The frequency of the band that lies nearest to `frequency`.
    pub open spec fn clamp(self, frequency: int) -> int {
        if frequency < self.low() {
            self.low()
        } else if frequency > self.high() {
            self.high()
        } else {
            frequency
        }
    }
}

impl CrystalFrequency {
    /// Reference frequency of the synthesizer under this clock, in hertz. The
    /// 13 MHz and the 6.5 MHz clock are both divided down to 50 kHz.
    pub open spec fn reference(self) -> int {
        match self {
            CrystalFrequency::Clk32_768Khz => 32_768,
            CrystalFrequency::Clk6_5MHz => 50_000,
            CrystalFrequency::Clk13Mhz => 50_000,
        }
    }
}

impl InjectionSide {
    /// What the local oscillator's frequency is above the station's, in hertz;
    /// negative when it runs below.
    pub open spec fn offset(self) -> int {
        match self {
            InjectionSide::HighSide => INTERMEDIATE_FREQUENCY as int,
            InjectionSide::LowSide => -(INTERMEDIATE_FREQUENCY as int),
        }
    }
}

} // verus!
