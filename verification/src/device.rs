//! Frequencies and divisors, the two frames, and the operations on the tuner's
//! settings.

use crate::bits::{
    bit_value, get_bit_u8, get_bits_u32, get_bits_u8, lemma_byte_fields, lemma_clear_two_above,
    lemma_eight_flags, lemma_flags_around_field, lemma_join_word, lemma_two_flags_above,
    lemma_word_fields, set_bit_u8, set_bits_u32, set_bits_u8,
};
use crate::defs::{
    BandLimits, CrystalFrequency, DeemphasisTime, InjectionSide, MuteChannel, SearchAdcLevel,
    SearchModeDirection, SearchState, SoundMode, BAND_LIMITS_EUROPE_US, BAND_LIMITS_JAPANESE,
    FREQUENCY_STEP, INTERMEDIATE_FREQUENCY, TEA5767,
};
use crate::regs::{
    DEVICE_ADDRESS, PLL_ABOVE, PLL_HIGH, PLL_LOW, RM_DB1_BLF, RM_DB1_RF, RM_DB3_STEREO,
    RM_DB4_LEV, WM_DB1_MUTE, WM_DB1_SM, WM_DB3_HLSI, WM_DB3_ML, WM_DB3_MR, WM_DB3_MS,
    WM_DB3_SSL, WM_DB3_SUD, WM_DB3_SWP1, WM_DB4_BL, WM_DB4_HCC, WM_DB4_SI, WM_DB4_SMUTE,
    WM_DB4_SNC, WM_DB4_STBY, WM_DB4_SWP2, WM_DB4_XTAL, WM_DB5_DTC, WM_DB5_PLLREF,
};
use vstd::prelude::*;

verus! {

/// The divisor that tunes the synthesizer to `frequency`, in hertz: four times
/// the local oscillator's frequency over the reference frequency, rounded down.
pub open spec fn pll_divisor(
    injection_side: InjectionSide,
    crystal_frequency: CrystalFrequency,
    frequency: int,
) -> int {
    4 * (frequency + injection_side.offset()) / crystal_frequency.reference()
}

/// The frequency, in hertz, that `divisor` tunes the synthesizer to.
pub open spec fn pll_frequency(
    injection_side: InjectionSide,
    crystal_frequency: CrystalFrequency,
    divisor: int,
) -> int {
    divisor * crystal_frequency.reference() / 4 - injection_side.offset()
}

/// Bits 8 to 13 of `decimal`: what a frame's first byte carries of a divisor.
pub open spec fn pll_high_byte(decimal: u32) -> u8 {
    (decimal / 256 % 64) as u8
}

/// Bits 0 to 7 of `decimal`: what a frame's second byte carries of a divisor.
pub open spec fn pll_low_byte(decimal: u32) -> u8 {
    (decimal % 256) as u8
}

/// The divisor that a frame's first two bytes carry. The two bits above it in
/// the first byte are flags and count for nothing.
pub open spec fn pll_from_bytes(high: u8, low: u8) -> u32 {
    ((high % 64) * 256 + low) as u32
}

/// Whether `frequency` lies within the reach of at least one band.
pub open spec fn tunable(frequency: int) -> bool {
    BAND_LIMITS_JAPANESE.0 <= frequency <= BAND_LIMITS_EUROPE_US.1
}

/// Computes the divisor for a frequency in hertz.
pub fn to_decimal_pll(
    injection_side: InjectionSide,
    crystal_frequency: CrystalFrequency,
    frequency: i64,
) -> (decimal: Option<u32>)
    requires
        tunable(frequency as int),
    ensures
        decimal == Some(pll_divisor(injection_side, crystal_frequency, frequency as int) as u32),
        0 <= pll_divisor(injection_side, crystal_frequency, frequency as int) < 0x4000,
{
    let numerator: i64 = match injection_side {
        InjectionSide::HighSide => 4 * (frequency + INTERMEDIATE_FREQUENCY),
        InjectionSide::LowSide => 4 * (frequency - INTERMEDIATE_FREQUENCY),
    };
    let quotient: i64 = match crystal_frequency {
        CrystalFrequency::Clk32_768Khz => numerator / 32_768,
        CrystalFrequency::Clk6_5MHz => numerator / 50_000,
        CrystalFrequency::Clk13Mhz => numerator / 50_000,
    };
    Some(quotient as u32)
}

/// Computes the frequency in hertz that a divisor stands for, to the nearest
/// step.
pub fn from_decimal_pll(
    injection_side: InjectionSide,
    crystal_frequency: CrystalFrequency,
    decimal: u32,
) -> (frequency: Option<i64>)
    ensures
        frequency == Some(
            round_to_step(
                pll_frequency(injection_side, crystal_frequency, decimal as int),
            ) as i64,
        ),
        -2 * FREQUENCY_STEP <= round_to_step(
            pll_frequency(injection_side, crystal_frequency, decimal as int),
        ) <= i64::MAX,
        decimal < 0x4000 ==> round_to_step(
            pll_frequency(injection_side, crystal_frequency, decimal as int),
        ) <= 2050 * FREQUENCY_STEP,
{
    let oscillator: i64 = match crystal_frequency {
        CrystalFrequency::Clk32_768Khz => decimal as i64 * 32_768 / 4,
        CrystalFrequency::Clk6_5MHz => decimal as i64 * 50_000 / 4,
        CrystalFrequency::Clk13Mhz => decimal as i64 * 50_000 / 4,
    };
    let exact: i64 = match injection_side {
        InjectionSide::HighSide => oscillator - INTERMEDIATE_FREQUENCY,
        InjectionSide::LowSide => oscillator + INTERMEDIATE_FREQUENCY,
    };
    let frequency: i64 = if exact >= 0 {
        (exact + FREQUENCY_STEP / 2) / FREQUENCY_STEP * FREQUENCY_STEP
    } else {
        -((-exact + FREQUENCY_STEP / 2) / FREQUENCY_STEP * FREQUENCY_STEP)
    };
    Some(frequency)
}

/// Splits a divisor into the two bytes that carry it in a frame, the high
/// byte first. Bits of `decimal` above the fourteenth are left out.
pub fn to_register_format_pll(decimal: u32) -> (pll_binary: Option<[u8; 2]>)
    ensures
        pll_binary matches Some(pll) && pll[0] == pll_high_byte(decimal) && pll[1]
            == pll_low_byte(decimal),
{
    let high = get_bits_u32(decimal, PLL_HIGH);
    let low = get_bits_u32(decimal, PLL_LOW);
    proof {
        lemma_word_fields(decimal);
    }
    let pll_binary = [high as u8, low as u8];
    Some(pll_binary)
}

/// Joins the two bytes that carry a divisor in a frame, the high byte first.
/// The two highest bits of the first byte are flags of the frame and are
/// masked out.
pub fn from_register_format_pll(pll: [u8; 2]) -> (pll_decimal: Option<u32>)
    ensures
        pll_decimal == Some(pll_from_bytes(pll[0], pll[1])),
        pll_from_bytes(pll[0], pll[1]) < 0x4000,
{
    proof {
        lemma_clear_two_above(pll[0]);
        lemma_join_word((pll[0] % 64) as u8, pll[1]);
    }
    let mut high: u8 = pll[0];
    set_bits_u8(&mut high, PLL_ABOVE, 0b00);
    let mut pll_decimal: u32 = 0;
    set_bits_u32(&mut pll_decimal, PLL_HIGH, high as u32);
    set_bits_u32(&mut pll_decimal, PLL_LOW, pll[1] as u32);
    Some(pll_decimal)
}

/// What the chip reports of itself in one frame read from it.
#[derive(Debug, Clone, Copy, PartialEq, Eq, Structural)]
pub struct TEA5767Flags {
    /// A station was found or the band limit reached.
    pub ready_flag: bool,
    /// The band limit was reached.
    pub band_limit_flag: bool,
    /// Whether the station is received in stereo.
    pub sound_mode_flag: SoundMode,
    /// Level of the signal, from 0 to 15.
    pub adc_level: u8,
    /// Frequency the chip stands at, in hertz, to the nearest step.
    pub output_frequency: i64,
}

/// The two bits that tell the chip at which signal level a search stops.
pub open spec fn search_level_code(level: SearchAdcLevel) -> int {
    match level {
        SearchAdcLevel::Low => 1,
        SearchAdcLevel::Mid => 2,
        SearchAdcLevel::High => 3,
    }
}

/// The multiple of the frequency step that lies nearest to `frequency`; of two
/// that are equally near, the one farther from zero.
pub open spec fn round_to_step(frequency: int) -> int {
    if frequency >= 0 {
        (frequency + FREQUENCY_STEP / 2) / (FREQUENCY_STEP as int) * FREQUENCY_STEP
    } else {
        -((-frequency + FREQUENCY_STEP / 2) / (FREQUENCY_STEP as int) * FREQUENCY_STEP)
    }
}

/// What is left of the mute setting once the right channel is let through.
pub open spec fn without_right_mute(mute: MuteChannel) -> MuteChannel {
    match mute {
        MuteChannel::Both => MuteChannel::Left,
        MuteChannel::Left => MuteChannel::Left,
        MuteChannel::Right => MuteChannel::Neither,
        MuteChannel::Neither => MuteChannel::Neither,
    }
}

/// What is left of the mute setting once the left channel is let through.
pub open spec fn without_left_mute(mute: MuteChannel) -> MuteChannel {
    match mute {
        MuteChannel::Both => MuteChannel::Right,
        MuteChannel::Right => MuteChannel::Right,
        MuteChannel::Left => MuteChannel::Neither,
        MuteChannel::Neither => MuteChannel::Neither,
    }
}

impl TEA5767 {
    /// The settings a tuner starts from.
    pub open spec fn initial(
        frequency: i64,
        band_limits: BandLimits,
        sound_mode: SoundMode,
    ) -> TEA5767 {
        TEA5767 {
            address: DEVICE_ADDRESS,
            frequency,
            band_limits,
            standby: false,
            mute: MuteChannel::Neither,
            soft_mute: false,
            search_mode: false,
            search_mode_dir: SearchModeDirection::Up,
            search_adc_level: SearchAdcLevel::Low,
            injection_side: InjectionSide::HighSide,
            sound_mode,
            high_cut_control: true,
            stereo_noise_canceling: true,
            crystal_frequency: CrystalFrequency::Clk32_768Khz,
            software_programmable_port1: false,
            software_programmable_port2: false,
            search_indicator: false,
            deemphasis_time: DeemphasisTime::Dtc75,
            search_state: SearchState::Idle,
        }
    }

    /// The frequency that is sent to the chip: the one set, held within the
    /// band.
    pub open spec fn sent_frequency(self) -> int {
        self.band_limits.clamp(self.frequency as int)
    }

    /// The divisor that is sent to the chip.
    pub open spec fn divisor(self) -> int {
        pll_divisor(self.injection_side, self.crystal_frequency, self.sent_frequency())
    }

    /// First byte of the frame: mute, search mode, and the divisor's high six
    /// bits.
    #[verifier::opaque]
    pub open spec fn data_byte_1(self) -> u8 {
        (128 * bit_value(self.mute == MuteChannel::Both) + 64 * bit_value(self.search_mode)
            + self.divisor() / 256 % 64) as u8
    }

    /// Second byte of the frame: the divisor's low eight bits.
    #[verifier::opaque]
    pub open spec fn data_byte_2(self) -> u8 {
        (self.divisor() % 256) as u8
    }

    /// Third byte of the frame: search direction, search stop level in two
    /// bits, injection side, mono, mute right, mute left, port 1.
    #[verifier::opaque]
    pub open spec fn data_byte_3(self) -> u8 {
        (128 * bit_value(self.search_mode_dir == SearchModeDirection::Up) + 32
            * search_level_code(self.search_adc_level) + 16 * bit_value(
            self.injection_side == InjectionSide::HighSide,
        ) + 8 * bit_value(self.sound_mode == SoundMode::Mono) + 4 * bit_value(
            self.mute == MuteChannel::Right,
        ) + 2 * bit_value(self.mute == MuteChannel::Left) + bit_value(
            self.software_programmable_port1,
        )) as u8
    }

    /// Fourth byte of the frame: port 2, standby, Japanese band, 32.768 kHz
    /// crystal, soft mute, high cut, noise cancelling, search indicator.
    #[verifier::opaque]
    pub open spec fn data_byte_4(self) -> u8 {
        (128 * bit_value(self.software_programmable_port2) + 64 * bit_value(self.standby) + 32
            * bit_value(self.band_limits == BandLimits::Japanese) + 16 * bit_value(
            self.crystal_frequency == CrystalFrequency::Clk32_768Khz,
        ) + 8 * bit_value(self.soft_mute) + 4 * bit_value(self.high_cut_control) + 2
            * bit_value(self.stereo_noise_canceling) + bit_value(self.search_indicator)) as u8
    }

    /// Fifth byte of the frame: 6.5 MHz reference, de-emphasis of 75
    /// microseconds, and six bits that stay clear.
    #[verifier::opaque]
    pub open spec fn data_byte_5(self) -> u8 {
        (128 * bit_value(self.crystal_frequency == CrystalFrequency::Clk6_5MHz) + 64
            * bit_value(self.deemphasis_time == DeemphasisTime::Dtc75)) as u8
    }

    /// The frame that carries these settings to the chip. Each byte is the sum
    /// of its fields, the highest bit first. The five sums are kept from the
    /// solver, so that a proof about whole frames does not carry their
    /// arithmetic along; `reveal` the byte whose digits matter.
    pub open spec fn write_frame(self) -> Seq<u8> {
        seq![
            self.data_byte_1(),
            self.data_byte_2(),
            self.data_byte_3(),
            self.data_byte_4(),
            self.data_byte_5(),
        ]
    }

    /// The settings as they stand once their frame is built: the frequency is
    /// held within the band, and the request to search, which goes out with one
    /// frame only, is taken back.
    pub open spec fn uploaded(self) -> TEA5767 {
        TEA5767 { frequency: self.sent_frequency() as i64, search_mode: false, ..self }
    }

    /// Whether the settings are as the chip has them after a frame: the
    /// frequency lies within the band, and no search is asked for.
    pub open spec fn settled(self) -> bool {
        &&& self.band_limits.low() <= self.frequency <= self.band_limits.high()
        &&& !self.search_mode
    }

    /// What a frame read from the chip says. The chip does not report the
    /// injection side and the clock; those of the settings are taken.
    pub open spec fn read_flags(self, read_bytes: Seq<u8>) -> TEA5767Flags {
        TEA5767Flags {
            ready_flag: read_bytes[0] >= 128,
            band_limit_flag: read_bytes[0] % 128 >= 64,
            sound_mode_flag: if read_bytes[2] >= 128 {
                SoundMode::Stereo
            } else {
                SoundMode::Mono
            },
            adc_level: read_bytes[3] / 16,
            output_frequency: round_to_step(
                pll_frequency(
                    self.injection_side,
                    self.crystal_frequency,
                    pll_from_bytes(read_bytes[0], read_bytes[1]) as int,
                ),
            ) as i64,
        }
    }

    /// Joins the flags of the frame's first byte to the divisor's high bits.
    fn write_byte_1(&self, pll_high: u8) -> (db1: u8)
        requires
            pll_high == self.divisor() / 256 % 64,
        ensures
            db1 == self.data_byte_1(),
    {
        let mut db1: u8 = pll_high;
        set_bit_u8(&mut db1, WM_DB1_MUTE, self.mute == MuteChannel::Both);
        set_bit_u8(&mut db1, WM_DB1_SM, self.search_mode);
        proof {
            lemma_two_flags_above(pll_high, self.mute == MuteChannel::Both, self.search_mode);
        }
        assert(db1 == self.data_byte_1()) by {
            reveal(TEA5767::data_byte_1);
        }
        db1
    }

    /// Builds the frame's third byte.
    fn write_byte_3(&self) -> (db3: u8)
        ensures
            db3 == self.data_byte_3(),
    {
        let level: u8 = match self.search_adc_level {
            SearchAdcLevel::Low => 0b01,
            SearchAdcLevel::Mid => 0b10,
            SearchAdcLevel::High => 0b11,
        };
        proof {
            lemma_flags_around_field(
                self.search_mode_dir == SearchModeDirection::Up,
                level,
                self.injection_side == InjectionSide::HighSide,
                self.sound_mode == SoundMode::Mono,
                self.mute == MuteChannel::Right,
                self.mute == MuteChannel::Left,
                self.software_programmable_port1,
            );
        }
        let mut db3: u8 = 0;
        set_bit_u8(&mut db3, WM_DB3_SUD, self.search_mode_dir == SearchModeDirection::Up);
        set_bits_u8(&mut db3, WM_DB3_SSL, level);
        set_bit_u8(&mut db3, WM_DB3_HLSI, self.injection_side == InjectionSide::HighSide);
        set_bit_u8(&mut db3, WM_DB3_MS, self.sound_mode == SoundMode::Mono);
        set_bit_u8(&mut db3, WM_DB3_MR, self.mute == MuteChannel::Right);
        set_bit_u8(&mut db3, WM_DB3_ML, self.mute == MuteChannel::Left);
        set_bit_u8(&mut db3, WM_DB3_SWP1, self.software_programmable_port1);
        assert(db3 == self.data_byte_3()) by {
            reveal(TEA5767::data_byte_3);
        }
        db3
    }

    /// Builds the frame's fourth byte.
    fn write_byte_4(&self) -> (db4: u8)
        ensures
            db4 == self.data_byte_4(),
    {
        let mut db4: u8 = 0;
        set_bit_u8(&mut db4, WM_DB4_SWP2, self.software_programmable_port2);
        set_bit_u8(&mut db4, WM_DB4_STBY, self.standby);
        set_bit_u8(&mut db4, WM_DB4_BL, self.band_limits == BandLimits::Japanese);
        set_bit_u8(
            &mut db4,
            WM_DB4_XTAL,
            self.crystal_frequency == CrystalFrequency::Clk32_768Khz,
        );
        set_bit_u8(&mut db4, WM_DB4_SMUTE, self.soft_mute);
        set_bit_u8(&mut db4, WM_DB4_HCC, self.high_cut_control);
        set_bit_u8(&mut db4, WM_DB4_SNC, self.stereo_noise_canceling);
        set_bit_u8(&mut db4, WM_DB4_SI, self.search_indicator);
        proof {
            lemma_eight_flags(
                self.software_programmable_port2,
                self.standby,
                self.band_limits == BandLimits::Japanese,
                self.crystal_frequency == CrystalFrequency::Clk32_768Khz,
                self.soft_mute,
                self.high_cut_control,
                self.stereo_noise_canceling,
                self.search_indicator,
            );
        }
        assert(db4 == self.data_byte_4()) by {
            reveal(TEA5767::data_byte_4);
        }
        db4
    }

    /// Builds the frame's fifth byte.
    fn write_byte_5(&self) -> (db5: u8)
        ensures
            db5 == self.data_byte_5(),
    {
        let mut db5: u8 = 0;
        set_bit_u8(
            &mut db5,
            WM_DB5_PLLREF,
            self.crystal_frequency == CrystalFrequency::Clk6_5MHz,
        );
        set_bit_u8(&mut db5, WM_DB5_DTC, self.deemphasis_time == DeemphasisTime::Dtc75);
        proof {
            lemma_two_flags_above(
                0,
                self.crystal_frequency == CrystalFrequency::Clk6_5MHz,
                self.deemphasis_time == DeemphasisTime::Dtc75,
            );
        }
        assert(db5 == self.data_byte_5()) by {
            reveal(TEA5767::data_byte_5);
        }
        db5
    }

    /// Holds the frequency within the band.
    fn clamp_frequency(&self) -> (frequency: i64)
        ensures
            frequency == self.sent_frequency(),
    {
        let limits = match self.band_limits {
            BandLimits::EuropeUS => BAND_LIMITS_EUROPE_US,
            BandLimits::Japanese => BAND_LIMITS_JAPANESE,
        };
        if self.frequency < limits.0 {
            limits.0
        } else if self.frequency > limits.1 {
            limits.1
        } else {
            self.frequency
        }
    }

    /// Builds the frame that carries the settings to the chip. The settings
    /// stay as they are.
    pub fn encode(&self) -> (write_bytes: [u8; 5])
        ensures
            write_bytes@ == self.write_frame(),
    {
        let decimal = to_decimal_pll(
            self.injection_side,
            self.crystal_frequency,
            self.clamp_frequency(),
        ).unwrap();
        let pll = to_register_format_pll(decimal).unwrap();
        assert(pll[1] == self.data_byte_2()) by {
            reveal(TEA5767::data_byte_2);
        }
        let write_bytes = [
            self.write_byte_1(pll[0]),
            pll[1],
            self.write_byte_3(),
            self.write_byte_4(),
            self.write_byte_5(),
        ];
        assert(write_bytes@ =~= self.write_frame());
        write_bytes
    }

    /// Builds the frame that carries the settings to the chip, and leaves the
    /// settings as the chip will have them: the frequency held within the band,
    /// and no search asked for.
    pub fn upload(&mut self) -> (write_bytes: [u8; 5])
        ensures
            write_bytes@ == old(self).write_frame(),
            *final(self) == old(self).uploaded(),
            final(self).settled(),
    {
        let write_bytes = self.encode();
        self.frequency = self.clamp_frequency();
        self.search_mode = false;
        write_bytes
    }

    /// Reads what a frame from the chip says.
    pub fn download(&self, read_bytes: [u8; 5]) -> (flags: TEA5767Flags)
        ensures
            flags == self.read_flags(read_bytes@),
            flags.adc_level <= 15,
            -2 * FREQUENCY_STEP <= flags.output_frequency <= 2050 * FREQUENCY_STEP,
    {
        proof {
            lemma_byte_fields(read_bytes[0]);
            lemma_byte_fields(read_bytes[2]);
            lemma_byte_fields(read_bytes[3]);
        }
        let ready_flag = get_bit_u8(read_bytes[0], RM_DB1_RF);
        let band_limit_flag = get_bit_u8(read_bytes[0], RM_DB1_BLF);

        let pll = [read_bytes[0], read_bytes[1]];
        let output_frequency = from_decimal_pll(
            self.injection_side,
            self.crystal_frequency,
            from_register_format_pll(pll).unwrap(),
        ).unwrap();

        let sound_mode_flag = if get_bit_u8(read_bytes[2], RM_DB3_STEREO) {
            SoundMode::Stereo
        } else {
            SoundMode::Mono
        };
        let adc_level = get_bits_u8(read_bytes[3], RM_DB4_LEV);

        TEA5767Flags { ready_flag, band_limit_flag, sound_mode_flag, adc_level, output_frequency }
    }

    /// Sets up a tuner for `frequency`, in hertz, within the given band, with
    /// every other setting at its default, and builds the frame that brings the
    /// chip there.
    pub fn new(frequency: i64, band_limits: BandLimits, sound_mode: SoundMode) -> (created: (
        TEA5767,
        [u8; 5],
    ))
        ensures
            created.0 == Self::initial(frequency, band_limits, sound_mode).uploaded(),
            created.0.settled(),
            created.1@ == Self::initial(frequency, band_limits, sound_mode).write_frame(),
    {
        let mut tea5767 = TEA5767 {
            address: DEVICE_ADDRESS,
            frequency,
            band_limits,
            standby: false,
            mute: MuteChannel::Neither,
            soft_mute: false,
            search_mode: false,
            search_mode_dir: SearchModeDirection::Up,
            search_adc_level: SearchAdcLevel::Low,
            injection_side: InjectionSide::HighSide,
            sound_mode,
            high_cut_control: true,
            stereo_noise_canceling: true,
            crystal_frequency: CrystalFrequency::Clk32_768Khz,
            software_programmable_port1: false,
            software_programmable_port2: false,
            search_indicator: false,
            deemphasis_time: DeemphasisTime::Dtc75,
            search_state: SearchState::Idle,
        };
        let write_bytes = tea5767.upload();
        (tea5767, write_bytes)
    }

    /// Silences both channels.
    pub fn mute(&mut self) -> (write_bytes: [u8; 5])
        ensures
            write_bytes@ == (TEA5767 { mute: MuteChannel::Both, ..*old(self) }).write_frame(),
            *final(self) == (TEA5767 { mute: MuteChannel::Both, ..*old(self) }).uploaded(),
            final(self).settled(),
    {
        self.mute = MuteChannel::Both;
        self.upload()
    }

    /// Silences the left channel and lets the right one through.
    pub fn mute_left(&mut self) -> (write_bytes: [u8; 5])
        ensures
            write_bytes@ == (TEA5767 { mute: MuteChannel::Left, ..*old(self) }).write_frame(),
            *final(self) == (TEA5767 { mute: MuteChannel::Left, ..*old(self) }).uploaded(),
            final(self).settled(),
    {
        self.mute = MuteChannel::Left;
        self.upload()
    }

    /// Silences the right channel and lets the left one through.
    pub fn mute_right(&mut self) -> (write_bytes: [u8; 5])
        ensures
            write_bytes@ == (TEA5767 { mute: MuteChannel::Right, ..*old(self) }).write_frame(),
            *final(self) == (TEA5767 { mute: MuteChannel::Right, ..*old(self) }).uploaded(),
            final(self).settled(),
    {
        self.mute = MuteChannel::Right;
        self.upload()
    }

    /// Lets both channels through.
    pub fn unmute(&mut self) -> (write_bytes: [u8; 5])
        ensures
            write_bytes@ == (TEA5767 { mute: MuteChannel::Neither, ..*old(self) }).write_frame(),
            *final(self) == (TEA5767 { mute: MuteChannel::Neither, ..*old(self) }).uploaded(),
            final(self).settled(),
    {
        self.mute = MuteChannel::Neither;
        self.upload()
    }

    /// Lets the right channel through; the left one stays as it is.
    pub fn unmute_right(&mut self) -> (write_bytes: [u8; 5])
        ensures
            write_bytes@ == (TEA5767 {
                mute: without_right_mute(old(self).mute),
                ..*old(self)
            }).write_frame(),
            *final(self) == (TEA5767 {
                mute: without_right_mute(old(self).mute),
                ..*old(self)
            }).uploaded(),
            final(self).settled(),
    {
        self.mute = match self.mute {
            MuteChannel::Both => MuteChannel::Left,
            MuteChannel::Left => MuteChannel::Left,
            _ => MuteChannel::Neither,
        };
        self.upload()
    }

    /// Lets the left channel through; the right one stays as it is.
    pub fn unmute_left(&mut self) -> (write_bytes: [u8; 5])
        ensures
            write_bytes@ == (TEA5767 {
                mute: without_left_mute(old(self).mute),
                ..*old(self)
            }).write_frame(),
            *final(self) == (TEA5767 {
                mute: without_left_mute(old(self).mute),
                ..*old(self)
            }).uploaded(),
            final(self).settled(),
    {
        self.mute = match self.mute {
            MuteChannel::Both => MuteChannel::Right,
            MuteChannel::Right => MuteChannel::Right,
            _ => MuteChannel::Neither,
        };
        self.upload()
    }

    /// Puts the chip to sleep.
    pub fn set_standby(&mut self) -> (write_bytes: [u8; 5])
        ensures
            write_bytes@ == (TEA5767 { standby: true, ..*old(self) }).write_frame(),
            *final(self) == (TEA5767 { standby: true, ..*old(self) }).uploaded(),
            final(self).settled(),
    {
        self.standby = true;
        self.upload()
    }

    /// Wakes the chip.
    pub fn reset_standby(&mut self) -> (write_bytes: [u8; 5])
        ensures
            write_bytes@ == (TEA5767 { standby: false, ..*old(self) }).write_frame(),
            *final(self) == (TEA5767 { standby: false, ..*old(self) }).uploaded(),
            final(self).settled(),
    {
        self.standby = false;
        self.upload()
    }

    /// Selects the band. A frequency outside it moves to its nearest limit.
    pub fn set_band(&mut self, band: BandLimits) -> (write_bytes: [u8; 5])
        ensures
            write_bytes@ == (TEA5767 { band_limits: band, ..*old(self) }).write_frame(),
            *final(self) == (TEA5767 { band_limits: band, ..*old(self) }).uploaded(),
            final(self).settled(),
    {
        self.band_limits = band;
        self.upload()
    }

    /// Turns soft mute on.
    pub fn set_soft_mute(&mut self) -> (write_bytes: [u8; 5])
        ensures
            write_bytes@ == (TEA5767 { soft_mute: true, ..*old(self) }).write_frame(),
            *final(self) == (TEA5767 { soft_mute: true, ..*old(self) }).uploaded(),
            final(self).settled(),
    {
        self.soft_mute = true;
        self.upload()
    }

    /// Turns soft mute off.
    pub fn reset_soft_mute(&mut self) -> (write_bytes: [u8; 5])
        ensures
            write_bytes@ == (TEA5767 { soft_mute: false, ..*old(self) }).write_frame(),
            *final(self) == (TEA5767 { soft_mute: false, ..*old(self) }).uploaded(),
            final(self).settled(),
    {
        self.soft_mute = false;
        self.upload()
    }

    /// Selects the clock that the synthesizer is fed from.
    pub fn set_clock_frequency(&mut self, clock_frequency: CrystalFrequency) -> (write_bytes: [
        u8;
        5
    ])
        ensures
            write_bytes@ == (TEA5767 {
                crystal_frequency: clock_frequency,
                ..*old(self)
            }).write_frame(),
            *final(self) == (TEA5767 {
                crystal_frequency: clock_frequency,
                ..*old(self)
            }).uploaded(),
            final(self).settled(),
    {
        self.crystal_frequency = clock_frequency;
        self.upload()
    }

    /// Turns high cut control on.
    pub fn set_high_cut_control(&mut self) -> (write_bytes: [u8; 5])
        ensures
            write_bytes@ == (TEA5767 { high_cut_control: true, ..*old(self) }).write_frame(),
            *final(self) == (TEA5767 { high_cut_control: true, ..*old(self) }).uploaded(),
            final(self).settled(),
    {
        self.high_cut_control = true;
        self.upload()
    }

    /// Turns high cut control off.
    pub fn reset_high_cut_control(&mut self) -> (write_bytes: [u8; 5])
        ensures
            write_bytes@ == (TEA5767 { high_cut_control: false, ..*old(self) }).write_frame(),
            *final(self) == (TEA5767 { high_cut_control: false, ..*old(self) }).uploaded(),
            final(self).settled(),
    {
        self.high_cut_control = false;
        self.upload()
    }

    /// Turns stereo noise cancelling on.
    pub fn set_stereo_noise_canceling(&mut self) -> (write_bytes: [u8; 5])
        ensures
            write_bytes@ == (TEA5767 { stereo_noise_canceling: true, ..*old(self) }).write_frame(),
            *final(self) == (TEA5767 { stereo_noise_canceling: true, ..*old(self) }).uploaded(),
            final(self).settled(),
    {
        self.stereo_noise_canceling = true;
        self.upload()
    }

    /// Turns stereo noise cancelling off.
    pub fn reset_stereo_noise_canceling(&mut self) -> (write_bytes: [u8; 5])
        ensures
            write_bytes@ == (TEA5767 { stereo_noise_canceling: false, ..*old(self) }).write_frame(),
            *final(self) == (TEA5767 { stereo_noise_canceling: false, ..*old(self) }).uploaded(),
            final(self).settled(),
    {
        self.stereo_noise_canceling = false;
        self.upload()
    }

    /// Selects the time constant of the de-emphasis filter.
    pub fn set_deemphasis_time(&mut self, deemphasis_time: DeemphasisTime) -> (write_bytes: [
        u8;
        5
    ])
        ensures
            write_bytes@ == (TEA5767 {
                deemphasis_time,
                ..*old(self)
            }).write_frame(),
            *final(self) == (TEA5767 { deemphasis_time, ..*old(self) }).uploaded(),
            final(self).settled(),
    {
        self.deemphasis_time = deemphasis_time;
        self.upload()
    }

    /// Tunes to `frequency`, in hertz. One outside the band is taken as the
    /// band's nearest limit.
    pub fn set_frequency(&mut self, frequency: i64) -> (write_bytes: [u8; 5])
        ensures
            write_bytes@ == (TEA5767 { frequency, ..*old(self) }).write_frame(),
            *final(self) == (TEA5767 { frequency, ..*old(self) }).uploaded(),
            final(self).settled(),
    {
        self.frequency = frequency;
        self.upload()
    }

    /// Selects stereo sound.
    pub fn set_stereo(&mut self) -> (write_bytes: [u8; 5])
        ensures
            write_bytes@ == (TEA5767 { sound_mode: SoundMode::Stereo, ..*old(self) }).write_frame(),
            *final(self) == (TEA5767 { sound_mode: SoundMode::Stereo, ..*old(self) }).uploaded(),
            final(self).settled(),
    {
        self.sound_mode = SoundMode::Stereo;
        self.upload()
    }

    /// Forces mono sound.
    pub fn set_mono(&mut self) -> (write_bytes: [u8; 5])
        ensures
            write_bytes@ == (TEA5767 { sound_mode: SoundMode::Mono, ..*old(self) }).write_frame(),
            *final(self) == (TEA5767 { sound_mode: SoundMode::Mono, ..*old(self) }).uploaded(),
            final(self).settled(),
    {
        self.sound_mode = SoundMode::Mono;
        self.upload()
    }

    /// The frequency that the chip stands at according to a frame read from it,
    /// in hertz, to the nearest step.
    pub fn get_frequency(&self, read_bytes: [u8; 5]) -> (frequency: i64)
        ensures
            frequency == self.read_flags(read_bytes@).output_frequency,
    {
        let flags = self.download(read_bytes);
        flags.output_frequency
    }

    /// The signal level according to a frame read from the chip, from 0 to 15.
    pub fn get_signal_level(&self, read_bytes: [u8; 5]) -> (level: u8)
        ensures
            level == self.read_flags(read_bytes@).adc_level,
            level <= 15,
    {
        let flags = self.download(read_bytes);
        flags.adc_level
    }

    /// Whether the station is received in stereo according to a frame read from
    /// the chip.
    pub fn get_sound_mode(&self, read_bytes: [u8; 5]) -> (sound_mode: SoundMode)
        ensures
            sound_mode == self.read_flags(read_bytes@).sound_mode_flag,
    {
        let flags = self.download(read_bytes);
        flags.sound_mode_flag
    }
}

/// The divisor of a frequency stands, before any rounding, for no more than
/// that frequency and for less than a quarter of the reference frequency below
/// it, whatever the injection side and the clock.
pub proof fn lemma_divisor_rounds_down(
    injection_side: InjectionSide,
    crystal_frequency: CrystalFrequency,
    frequency: int,
)
    ensures
        frequency - crystal_frequency.reference() / 4 < pll_frequency(
            injection_side,
            crystal_frequency,
            pll_divisor(injection_side, crystal_frequency, frequency),
        ) <= frequency,
{
    let numerator = 4 * (frequency + injection_side.offset());
    match crystal_frequency {
        CrystalFrequency::Clk32_768Khz => {
            let divisor = numerator / 32_768;
            assert(divisor * 32_768 / 4 == divisor * 8_192);
        },
        CrystalFrequency::Clk6_5MHz => {
            let divisor = numerator / 50_000;
            assert(divisor * 50_000 / 4 == divisor * 12_500);
        },
        CrystalFrequency::Clk13Mhz => {
            let divisor = numerator / 50_000;
            assert(divisor * 50_000 / 4 == divisor * 12_500);
        },
    }
}

/// Turning a frequency into a divisor and the divisor back into a frequency,
/// which comes rounded to the step, gives a frequency less than one step away,
/// whatever the injection side and the clock.
pub proof fn lemma_frequency_round_trip(
    injection_side: InjectionSide,
    crystal_frequency: CrystalFrequency,
    frequency: int,
)
    ensures
        -FREQUENCY_STEP < round_to_step(
            pll_frequency(
                injection_side,
                crystal_frequency,
                pll_divisor(injection_side, crystal_frequency, frequency),
            ),
        ) - frequency < FREQUENCY_STEP,
{
    lemma_divisor_rounds_down(injection_side, crystal_frequency, frequency);
}

/// A frequency that is a whole number of steps comes back exactly from its
/// divisor once it is rounded to the step.
pub proof fn lemma_station_round_trip(
    injection_side: InjectionSide,
    crystal_frequency: CrystalFrequency,
    frequency: int,
)
    requires
        frequency % (FREQUENCY_STEP as int) == 0,
    ensures
        round_to_step(
            pll_frequency(
                injection_side,
                crystal_frequency,
                pll_divisor(injection_side, crystal_frequency, frequency),
            ),
        ) == frequency,
{
    lemma_divisor_rounds_down(injection_side, crystal_frequency, frequency);
    let back = pll_frequency(
        injection_side,
        crystal_frequency,
        pll_divisor(injection_side, crystal_frequency, frequency),
    );
    let steps = frequency / 100_000;
    let lost = frequency - back;
    assert(frequency == steps * 100_000);
    assert(0 <= lost < 12_501);
    if back >= 0 {
        assert((back + 50_000) / 100_000 == steps) by {
            assert(back + 50_000 == steps * 100_000 + (50_000 - lost));
        }
    } else {
        assert((-back + 50_000) / 100_000 == -steps) by {
            assert(-back + 50_000 == (-steps) * 100_000 + (50_000 + lost));
        }
    }
}

/// Letting a channel through a second time changes nothing, and letting
/// through one channel after the other leaves none muted, from whatever mute
/// setting and in either order.
pub proof fn lemma_unmute_transitions(mute: MuteChannel)
    ensures
        without_right_mute(without_right_mute(mute)) == without_right_mute(mute),
        without_left_mute(without_left_mute(mute)) == without_left_mute(mute),
        without_left_mute(without_right_mute(mute)) == MuteChannel::Neither,
        without_right_mute(without_left_mute(mute)) == MuteChannel::Neither,
        without_right_mute(mute) != MuteChannel::Right && without_right_mute(mute)
            != MuteChannel::Both,
        without_left_mute(mute) != MuteChannel::Left && without_left_mute(mute)
            != MuteChannel::Both,
{
}

/// A divisor of fourteen bits comes back unchanged from the two bytes that
/// carry it.
pub proof fn lemma_register_format_round_trip(decimal: u32)
    requires
        decimal < 0x4000,
    ensures
        pll_from_bytes(pll_high_byte(decimal), pll_low_byte(decimal)) == decimal,
{
}

/// The two highest bits of the first byte count for nothing in the divisor
/// read from two bytes, which therefore has fourteen bits at most.
pub proof fn lemma_register_format_masks_flags(high: u8, low: u8)
    ensures
        pll_from_bytes(high, low) == pll_from_bytes((high % 64) as u8, low),
        pll_from_bytes(high, low) < 0x4000,
{
}

/// A divisor of fourteen bits comes back from the two bytes of a frame that
/// carry it, whatever the two flags above it in the first byte.
proof fn lemma_divisor_under_flags(mute: bool, search: bool, divisor: int)
    requires
        0 <= divisor < 0x4000,
    ensures
        pll_from_bytes(
            (128 * bit_value(mute) + 64 * bit_value(search) + divisor / 256 % 64) as u8,
            (divisor % 256) as u8,
        ) == divisor,
{
    let high = divisor / 256;
    let first = 128 * bit_value(mute) + 64 * bit_value(search) + high;
    assert(high % 64 == high);
    assert(first % 64 == high);
}

/// The first two bytes of a frame carry the divisor of the frequency held
/// within the band, and that divisor comes back from them.
pub proof fn lemma_frame_carries_divisor(state: TEA5767)
    ensures
        state.divisor() == pll_divisor(
            state.injection_side,
            state.crystal_frequency,
            state.band_limits.clamp(state.frequency as int),
        ),
        pll_from_bytes(state.write_frame()[0], state.write_frame()[1]) == state.divisor(),
{
    reveal(TEA5767::data_byte_1);
    reveal(TEA5767::data_byte_2);
    lemma_divisor_has_fourteen_bits(
        state.injection_side,
        state.crystal_frequency,
        state.sent_frequency(),
    );
    lemma_divisor_under_flags(
        state.mute == MuteChannel::Both,
        state.search_mode,
        state.divisor(),
    );
}

/// A frame for a frequency that is a whole number of steps, read as if the
/// chip had sent it back, reports the frequency that was sent.
pub proof fn lemma_frame_reads_back(state: TEA5767)
    requires
        state.sent_frequency() % (FREQUENCY_STEP as int) == 0,
    ensures
        state.read_flags(state.write_frame()).output_frequency == state.sent_frequency(),
{
    lemma_frame_carries_divisor(state);
    lemma_divisor_has_fourteen_bits(
        state.injection_side,
        state.crystal_frequency,
        state.sent_frequency(),
    );
    lemma_station_round_trip(
        state.injection_side,
        state.crystal_frequency,
        state.sent_frequency(),
    );
}

/// Whether two settings agree in all that a frame carries: in the frequency
/// held within the band, and in every setting but the band's two neighbours
/// that never travel, the bus address and the state of a search.
pub open spec fn same_on_the_wire(state: TEA5767, other: TEA5767) -> bool {
    &&& other.sent_frequency() == state.sent_frequency()
    &&& other.band_limits == state.band_limits
    &&& other.standby == state.standby
    &&& other.mute == state.mute
    &&& other.soft_mute == state.soft_mute
    &&& other.search_mode == state.search_mode
    &&& other.search_mode_dir == state.search_mode_dir
    &&& other.search_adc_level == state.search_adc_level
    &&& other.injection_side == state.injection_side
    &&& other.sound_mode == state.sound_mode
    &&& other.high_cut_control == state.high_cut_control
    &&& other.stereo_noise_canceling == state.stereo_noise_canceling
    &&& other.crystal_frequency == state.crystal_frequency
    &&& other.software_programmable_port1 == state.software_programmable_port1
    &&& other.software_programmable_port2 == state.software_programmable_port2
    &&& other.search_indicator == state.search_indicator
    &&& other.deemphasis_time == state.deemphasis_time
}

/// Settings that agree in all that a frame carries have the same frame.
pub proof fn lemma_same_frame(state: TEA5767, other: TEA5767)
    requires
        same_on_the_wire(state, other),
    ensures
        other.write_frame() == state.write_frame(),
{
    assert(other.divisor() == state.divisor());
    assert(other.data_byte_1() == state.data_byte_1()) by {
        reveal(TEA5767::data_byte_1);
    }
    assert(other.data_byte_2() == state.data_byte_2()) by {
        reveal(TEA5767::data_byte_2);
    }
    assert(other.data_byte_3() == state.data_byte_3()) by {
        reveal(TEA5767::data_byte_3);
    }
    assert(other.data_byte_4() == state.data_byte_4()) by {
        reveal(TEA5767::data_byte_4);
    }
    assert(other.data_byte_5() == state.data_byte_5()) by {
        reveal(TEA5767::data_byte_5);
    }
}

/// A frequency above the band is sent as the band's highest, one below it as
/// the band's lowest: the frame is the one of the limit, byte for byte, and
/// carries the limit's divisor.
pub proof fn lemma_band_clamping(state: TEA5767)
    ensures
        state.frequency > state.band_limits.high() ==> state.write_frame() == (TEA5767 {
            frequency: state.band_limits.high() as i64,
            ..state
        }).write_frame() && state.divisor() == pll_divisor(
            state.injection_side,
            state.crystal_frequency,
            state.band_limits.high(),
        ),
        state.frequency < state.band_limits.low() ==> state.write_frame() == (TEA5767 {
            frequency: state.band_limits.low() as i64,
            ..state
        }).write_frame() && state.divisor() == pll_divisor(
            state.injection_side,
            state.crystal_frequency,
            state.band_limits.low(),
        ),
{
    if state.frequency > state.band_limits.high() {
        lemma_same_frame(state, TEA5767 { frequency: state.band_limits.high() as i64, ..state });
    }
    if state.frequency < state.band_limits.low() {
        lemma_same_frame(state, TEA5767 { frequency: state.band_limits.low() as i64, ..state });
    }
}

/// Once a frame is built the settings are settled, and settled settings are
/// not changed by building a frame.
pub proof fn lemma_uploaded_settles(state: TEA5767)
    ensures
        state.uploaded().settled(),
        state.settled() ==> state.uploaded() == state,
{
}

/// The divisor of a frequency within the reach of a band has fourteen bits.
pub proof fn lemma_divisor_has_fourteen_bits(
    injection_side: InjectionSide,
    crystal_frequency: CrystalFrequency,
    frequency: int,
)
    requires
        tunable(frequency),
    ensures
        0 <= pll_divisor(injection_side, crystal_frequency, frequency) < 0x4000,
{
}

} // verus!
