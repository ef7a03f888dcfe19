//! The frame written to the chip, the frame read from it, and the settings
//! between them.

use tea5767::defs::{
    BandLimits, CrystalFrequency, DeemphasisTime, InjectionSide, MuteChannel, SearchAdcLevel,
    SearchModeDirection, SearchState, SoundMode, BAND_LIMITS_EUROPE_US, BAND_LIMITS_JAPANESE,
    TEA5767,
};
use tea5767::device::{to_decimal_pll, to_register_format_pll, TEA5767Flags};
use tea5767::regs::DEVICE_ADDRESS;

/// Whole hertz of a frequency given in megahertz.
fn hertz_of(megahertz: f32) -> i64 {
    (megahertz * 1_000_000.0).round() as i64
}

/// A tuner on 89.9 MHz in the European and US band, in stereo.
fn radio() -> TEA5767 {
    TEA5767::new(89_900_000, BandLimits::EuropeUS, SoundMode::Stereo).0
}

#[test]
fn test_write_data() {
    let (_, write_bytes) = TEA5767::new(89_900_000, BandLimits::EuropeUS, SoundMode::Stereo);
    assert_eq!(write_bytes, [0x2A, 0xF9, 0xB0, 0x16, 0x40]);
    assert_eq!(DEVICE_ADDRESS, 0x60);
}

#[test]
fn test_tea67_new() {
    let (radio, write_bytes) =
        TEA5767::new(hertz_of(89.9), BandLimits::EuropeUS, SoundMode::Stereo);
    assert_eq!(
        radio,
        TEA5767 {
            address: 0x60,
            frequency: 89_900_000,
            band_limits: BandLimits::EuropeUS,
            standby: false,
            mute: MuteChannel::Neither,
            soft_mute: false,
            search_mode: false,
            search_mode_dir: SearchModeDirection::Up,
            search_adc_level: SearchAdcLevel::Low,
            injection_side: InjectionSide::HighSide,
            sound_mode: SoundMode::Stereo,
            high_cut_control: true,
            stereo_noise_canceling: true,
            crystal_frequency: CrystalFrequency::Clk32_768Khz,
            software_programmable_port1: false,
            software_programmable_port2: false,
            search_indicator: false,
            deemphasis_time: DeemphasisTime::Dtc75,
            search_state: SearchState::Idle,
        }
    );
    assert_eq!(write_bytes, [0b0010_1010, 0b1111_1001, 0b1011_0000, 0b0001_0110, 0b0100_0000]);
}

#[test]
fn new_holds_the_frequency_within_the_band() {
    let (radio, write_bytes) = TEA5767::new(20_000_000, BandLimits::Japanese, SoundMode::Mono);
    assert_eq!(radio.frequency, 76_000_000);
    assert_eq!(radio.sound_mode, SoundMode::Mono);
    // divisor 9304 = 0x2458; mono and the Japanese band show in bytes 3 and 4
    assert_eq!(write_bytes, [0x24, 0x58, 0b1011_1000, 0b0011_0110, 0b0100_0000]);
}

#[test]
fn encode_leaves_the_settings_alone() {
    let mut radio = radio();
    radio.frequency = 200_000_000;
    radio.search_mode = true;
    let before = radio;
    let write_bytes = radio.encode();
    assert_eq!(radio, before);
    // divisor 13211 = 0x339B of 108 MHz, with the request to search
    assert_eq!(write_bytes, [0x33 | 0x40, 0x9B, 0xB0, 0x16, 0x40]);
}

#[test]
fn upload_clamps_and_takes_the_search_request_back() {
    let mut radio = radio();
    radio.frequency = 200_000_000;
    radio.search_mode = true;
    let write_bytes = radio.upload();
    assert_eq!(write_bytes, [0x73, 0x9B, 0xB0, 0x16, 0x40]);
    assert_eq!(radio.frequency, 108_000_000);
    assert!(!radio.search_mode);
    // the next frame no longer asks to search
    assert_eq!(radio.upload(), [0x33, 0x9B, 0xB0, 0x16, 0x40]);
    assert_eq!(radio.frequency, 108_000_000);
}

#[test]
fn frequency_within_the_band_is_sent_as_it_is() {
    let mut radio = radio();
    assert_eq!(radio.set_frequency(100_000_000), [0x2F, 0xCA, 0xB0, 0x16, 0x40]);
    assert_eq!(radio.frequency, 100_000_000);
    assert_eq!(radio.set_frequency(87_500_000), [0x29, 0xD4, 0xB0, 0x16, 0x40]);
    assert_eq!(radio.frequency, 87_500_000);
    assert_eq!(radio.set_frequency(108_000_000), [0x33, 0x9B, 0xB0, 0x16, 0x40]);
    assert_eq!(radio.frequency, 108_000_000);
}

#[test]
fn frequency_outside_the_band_is_sent_as_the_limit() {
    for band in [BandLimits::EuropeUS, BandLimits::Japanese] {
        let (low, high) = match band {
            BandLimits::EuropeUS => BAND_LIMITS_EUROPE_US,
            BandLimits::Japanese => BAND_LIMITS_JAPANESE,
        };
        for (request, limit) in [
            (high + 1, high),
            (high + 17_000_000, high),
            (i64::MAX, high),
            (low - 1, low),
            (0, low),
            (-5, low),
            (i64::MIN, low),
        ] {
            let mut asked = TEA5767::new(low, band, SoundMode::Stereo).0;
            let mut limited = asked;
            let frame = asked.set_frequency(request);
            assert_eq!(frame, limited.set_frequency(limit), "{:?} {}", band, request);
            assert_eq!(asked.frequency, limit);
            let decimal =
                to_decimal_pll(asked.injection_side, asked.crystal_frequency, limit).unwrap();
            let pll = to_register_format_pll(decimal).unwrap();
            assert_eq!([frame[0], frame[1]], pll);
        }
    }
}

#[test]
fn band_limits_in_hertz() {
    assert_eq!(BAND_LIMITS_EUROPE_US, (87_500_000, 108_000_000));
    assert_eq!(BAND_LIMITS_JAPANESE, (76_000_000, 91_000_000));
}

#[test]
fn changing_the_band_moves_the_frequency_into_it() {
    let mut radio = TEA5767::new(100_000_000, BandLimits::EuropeUS, SoundMode::Stereo).0;
    // 91 MHz has divisor 11135 = 0x2B7F
    assert_eq!(radio.set_band(BandLimits::Japanese), [0x2B, 0x7F, 0xB0, 0x36, 0x40]);
    assert_eq!(radio.frequency, 91_000_000);
    assert_eq!(radio.band_limits, BandLimits::Japanese);
    assert_eq!(radio.set_band(BandLimits::EuropeUS), [0x2B, 0x7F, 0xB0, 0x16, 0x40]);
    assert_eq!(radio.frequency, 91_000_000);
    let mut radio = TEA5767::new(80_000_000, BandLimits::Japanese, SoundMode::Stereo).0;
    radio.set_band(BandLimits::EuropeUS);
    assert_eq!(radio.frequency, 87_500_000);
}

#[test]
fn mute_settings_and_their_bits() {
    let mut radio = radio();
    assert_eq!(radio.mute(), [0xAA, 0xF9, 0xB0, 0x16, 0x40]);
    assert_eq!(radio.mute, MuteChannel::Both);
    assert_eq!(radio.mute_left(), [0x2A, 0xF9, 0xB2, 0x16, 0x40]);
    assert_eq!(radio.mute, MuteChannel::Left);
    assert_eq!(radio.mute_right(), [0x2A, 0xF9, 0xB4, 0x16, 0x40]);
    assert_eq!(radio.mute, MuteChannel::Right);
    assert_eq!(radio.unmute(), [0x2A, 0xF9, 0xB0, 0x16, 0x40]);
    assert_eq!(radio.mute, MuteChannel::Neither);
}

#[test]
fn unmute_right_transitions() {
    for (before, after) in [
        (MuteChannel::Both, MuteChannel::Left),
        (MuteChannel::Left, MuteChannel::Left),
        (MuteChannel::Right, MuteChannel::Neither),
        (MuteChannel::Neither, MuteChannel::Neither),
    ] {
        let mut radio = radio();
        radio.mute = before;
        let mut expected = radio;
        expected.mute = after;
        assert_eq!(radio.unmute_right(), expected.encode(), "{:?}", before);
        assert_eq!(radio.mute, after, "{:?}", before);
        // once more changes nothing
        radio.unmute_right();
        assert_eq!(radio.mute, after, "{:?}", before);
    }
}

#[test]
fn unmute_left_transitions() {
    for (before, after) in [
        (MuteChannel::Both, MuteChannel::Right),
        (MuteChannel::Right, MuteChannel::Right),
        (MuteChannel::Left, MuteChannel::Neither),
        (MuteChannel::Neither, MuteChannel::Neither),
    ] {
        let mut radio = radio();
        radio.mute = before;
        let mut expected = radio;
        expected.mute = after;
        assert_eq!(radio.unmute_left(), expected.encode(), "{:?}", before);
        assert_eq!(radio.mute, after, "{:?}", before);
        radio.unmute_left();
        assert_eq!(radio.mute, after, "{:?}", before);
    }
}

#[test]
fn unmuting_one_channel_after_the_other_unmutes_both() {
    let mut radio = radio();
    radio.mute();
    radio.unmute_right();
    assert_eq!(radio.unmute_left(), [0x2A, 0xF9, 0xB0, 0x16, 0x40]);
    assert_eq!(radio.mute, MuteChannel::Neither);
    radio.mute();
    radio.unmute_left();
    assert_eq!(radio.mute, MuteChannel::Right);
    radio.unmute_right();
    assert_eq!(radio.mute, MuteChannel::Neither);
}

#[test]
fn standby_bit() {
    let mut radio = radio();
    assert_eq!(radio.set_standby(), [0x2A, 0xF9, 0xB0, 0x56, 0x40]);
    assert!(radio.standby);
    assert_eq!(radio.reset_standby(), [0x2A, 0xF9, 0xB0, 0x16, 0x40]);
    assert!(!radio.standby);
}

#[test]
fn soft_mute_bit() {
    let mut radio = radio();
    assert_eq!(radio.set_soft_mute(), [0x2A, 0xF9, 0xB0, 0x1E, 0x40]);
    assert!(radio.soft_mute);
    assert_eq!(radio.reset_soft_mute(), [0x2A, 0xF9, 0xB0, 0x16, 0x40]);
    assert!(!radio.soft_mute);
}

#[test]
fn high_cut_control_bit() {
    let mut radio = radio();
    assert_eq!(radio.reset_high_cut_control(), [0x2A, 0xF9, 0xB0, 0x12, 0x40]);
    assert!(!radio.high_cut_control);
    assert_eq!(radio.set_high_cut_control(), [0x2A, 0xF9, 0xB0, 0x16, 0x40]);
    assert!(radio.high_cut_control);
}

#[test]
fn stereo_noise_canceling_bit() {
    let mut radio = radio();
    assert_eq!(radio.reset_stereo_noise_canceling(), [0x2A, 0xF9, 0xB0, 0x14, 0x40]);
    assert!(!radio.stereo_noise_canceling);
    assert_eq!(radio.set_stereo_noise_canceling(), [0x2A, 0xF9, 0xB0, 0x16, 0x40]);
    assert!(radio.stereo_noise_canceling);
}

#[test]
fn sound_mode_bit() {
    let mut radio = radio();
    assert_eq!(radio.set_mono(), [0x2A, 0xF9, 0xB8, 0x16, 0x40]);
    assert_eq!(radio.sound_mode, SoundMode::Mono);
    assert_eq!(radio.set_stereo(), [0x2A, 0xF9, 0xB0, 0x16, 0x40]);
    assert_eq!(radio.sound_mode, SoundMode::Stereo);
}

#[test]
fn deemphasis_bit() {
    let mut radio = radio();
    assert_eq!(radio.set_deemphasis_time(DeemphasisTime::Dtc50), [0x2A, 0xF9, 0xB0, 0x16, 0x00]);
    assert_eq!(radio.deemphasis_time, DeemphasisTime::Dtc50);
    assert_eq!(radio.set_deemphasis_time(DeemphasisTime::Dtc75), [0x2A, 0xF9, 0xB0, 0x16, 0x40]);
    assert_eq!(radio.deemphasis_time, DeemphasisTime::Dtc75);
}

#[test]
fn clock_bits_and_the_divisor_that_goes_with_them() {
    let mut radio = radio();
    // 4 * 90 125 000 / 50 000 = 7210 = 0x1C2A; neither clock bit for 13 MHz
    assert_eq!(
        radio.set_clock_frequency(CrystalFrequency::Clk13Mhz),
        [0x1C, 0x2A, 0xB0, 0x06, 0x40]
    );
    assert_eq!(radio.crystal_frequency, CrystalFrequency::Clk13Mhz);
    // the reference bit of byte 5 for 6.5 MHz
    assert_eq!(
        radio.set_clock_frequency(CrystalFrequency::Clk6_5MHz),
        [0x1C, 0x2A, 0xB0, 0x06, 0xC0]
    );
    // the crystal bit of byte 4 for 32.768 kHz
    assert_eq!(
        radio.set_clock_frequency(CrystalFrequency::Clk32_768Khz),
        [0x2A, 0xF9, 0xB0, 0x16, 0x40]
    );
}

#[test]
fn search_settings_and_their_bits() {
    let mut radio = radio();
    radio.search_mode_dir = SearchModeDirection::Down;
    assert_eq!(radio.encode(), [0x2A, 0xF9, 0x30, 0x16, 0x40]);
    radio.search_adc_level = SearchAdcLevel::Mid;
    assert_eq!(radio.encode(), [0x2A, 0xF9, 0x50, 0x16, 0x40]);
    radio.search_adc_level = SearchAdcLevel::High;
    assert_eq!(radio.encode(), [0x2A, 0xF9, 0x70, 0x16, 0x40]);
    radio.search_mode = true;
    assert_eq!(radio.encode(), [0x6A, 0xF9, 0x70, 0x16, 0x40]);
}

#[test]
fn injection_side_bit_and_the_divisor_that_goes_with_it() {
    let mut radio = radio();
    radio.injection_side = InjectionSide::LowSide;
    // 4 * 89 675 000 / 32 768 = 10946 = 0x2AC2
    assert_eq!(radio.encode(), [0x2A, 0xC2, 0xA0, 0x16, 0x40]);
}

#[test]
fn port_and_indicator_bits() {
    let mut radio = radio();
    radio.software_programmable_port1 = true;
    assert_eq!(radio.encode(), [0x2A, 0xF9, 0xB1, 0x16, 0x40]);
    radio.software_programmable_port2 = true;
    assert_eq!(radio.encode(), [0x2A, 0xF9, 0xB1, 0x96, 0x40]);
    radio.search_indicator = true;
    assert_eq!(radio.encode(), [0x2A, 0xF9, 0xB1, 0x97, 0x40]);
}

#[test]
fn every_bit_set_that_can_be() {
    let all = TEA5767 {
        address: 0x60,
        frequency: 91_000_000,
        band_limits: BandLimits::Japanese,
        standby: true,
        mute: MuteChannel::Both,
        soft_mute: true,
        search_mode: true,
        search_mode_dir: SearchModeDirection::Up,
        search_adc_level: SearchAdcLevel::High,
        injection_side: InjectionSide::HighSide,
        sound_mode: SoundMode::Mono,
        high_cut_control: true,
        stereo_noise_canceling: true,
        crystal_frequency: CrystalFrequency::Clk32_768Khz,
        software_programmable_port1: true,
        software_programmable_port2: true,
        search_indicator: true,
        deemphasis_time: DeemphasisTime::Dtc75,
        search_state: SearchState::Idle,
    };
    // 91 MHz has divisor 11135 = 0x2B7F
    assert_eq!(all.encode(), [0xEB, 0x7F, 0xF9, 0xFF, 0x40]);
    let none = TEA5767 {
        address: 0x60,
        frequency: 76_000_000,
        band_limits: BandLimits::EuropeUS,
        standby: false,
        mute: MuteChannel::Neither,
        soft_mute: false,
        search_mode: false,
        search_mode_dir: SearchModeDirection::Down,
        search_adc_level: SearchAdcLevel::Low,
        injection_side: InjectionSide::LowSide,
        sound_mode: SoundMode::Stereo,
        high_cut_control: false,
        stereo_noise_canceling: false,
        crystal_frequency: CrystalFrequency::Clk13Mhz,
        software_programmable_port1: false,
        software_programmable_port2: false,
        search_indicator: false,
        deemphasis_time: DeemphasisTime::Dtc50,
        search_state: SearchState::Found,
    };
    // 4 * (87 500 000 - 225 000) / 50 000 = 6982 = 0x1B46
    assert_eq!(none.encode(), [0x1B, 0x46, 0x20, 0x00, 0x00]);
}

#[test]
fn the_state_of_a_search_does_not_show_in_the_frame() {
    let mut radio = radio();
    let frame = radio.encode();
    for state in [
        SearchState::Idle,
        SearchState::Started(SearchModeDirection::Down, SearchAdcLevel::High),
        SearchState::Muted(SearchModeDirection::Down, SearchAdcLevel::High),
        SearchState::Seeking,
        SearchState::Polling,
        SearchState::Withdrawn,
        SearchState::Found,
        SearchState::BandLimitReached,
    ] {
        radio.search_state = state;
        assert_eq!(radio.encode(), frame);
    }
}

#[test]
fn download_reads_every_field() {
    let radio = radio();
    assert_eq!(
        radio.download([0x2A, 0xF9, 0x00, 0x00, 0x00]),
        TEA5767Flags {
            ready_flag: false,
            band_limit_flag: false,
            sound_mode_flag: SoundMode::Mono,
            adc_level: 0,
            output_frequency: 89_900_000,
        }
    );
    assert_eq!(
        radio.download([0xAA, 0xF9, 0x80, 0x70, 0x00]),
        TEA5767Flags {
            ready_flag: true,
            band_limit_flag: false,
            sound_mode_flag: SoundMode::Stereo,
            adc_level: 7,
            output_frequency: 89_900_000,
        }
    );
    assert_eq!(
        radio.download([0x6A, 0xF9, 0x7F, 0xFF, 0xFF]),
        TEA5767Flags {
            ready_flag: false,
            band_limit_flag: true,
            sound_mode_flag: SoundMode::Mono,
            adc_level: 15,
            output_frequency: 89_900_000,
        }
    );
    assert_eq!(
        radio.download([0xFF, 0xFF, 0xFF, 0x0F, 0x00]),
        TEA5767Flags {
            ready_flag: true,
            band_limit_flag: true,
            sound_mode_flag: SoundMode::Stereo,
            adc_level: 0,
            // 16383 * 8192 - 225 000 = 133 984 536
            output_frequency: 134_000_000,
        }
    );
}

#[test]
fn download_goes_by_the_injection_side_and_clock_of_the_settings() {
    let mut radio = radio();
    radio.injection_side = InjectionSide::LowSide;
    // 11001 * 8192 + 225 000 = 90 345 192
    assert_eq!(radio.download([0x2A, 0xF9, 0, 0, 0]).output_frequency, 90_300_000);
    radio.crystal_frequency = CrystalFrequency::Clk13Mhz;
    // 11001 * 12 500 + 225 000 = 137 737 500
    assert_eq!(radio.download([0x2A, 0xF9, 0, 0, 0]).output_frequency, 137_700_000);
    radio.injection_side = InjectionSide::HighSide;
    radio.crystal_frequency = CrystalFrequency::Clk6_5MHz;
    // 11001 * 12 500 - 225 000 = 137 287 500
    assert_eq!(radio.download([0x2A, 0xF9, 0, 0, 0]).output_frequency, 137_300_000);
}

#[test]
fn reported_frequency_is_rounded_to_the_step_away_from_zero_on_a_tie() {
    let mut radio = radio();
    radio.crystal_frequency = CrystalFrequency::Clk13Mhz;
    // 22 * 12 500 - 225 000 = 50 000, half a step
    assert_eq!(radio.download([0, 22, 0, 0, 0]).output_frequency, 100_000);
    // 6 * 12 500 - 225 000 = -150 000, a step and a half below zero
    assert_eq!(radio.download([0, 6, 0, 0, 0]).output_frequency, -200_000);
    // 0 * 12 500 - 225 000
    assert_eq!(radio.download([0, 0, 0, 0, 0]).output_frequency, -200_000);
    // 12220 * 12 500 - 225 000 = 152 525 000, a quarter step up
    assert_eq!(radio.download([0x2F, 0xBC, 0, 0, 0]).output_frequency, 152_500_000);
    radio.injection_side = InjectionSide::LowSide;
    // 2 * 12 500 + 225 000 = 250 000, half a step
    assert_eq!(radio.download([0, 2, 0, 0, 0]).output_frequency, 300_000);
    // 16383 * 12 500 + 225 000 = 205 012 500, the largest there is
    assert_eq!(radio.download([0x3F, 0xFF, 0, 0, 0]).output_frequency, 205_000_000);
    radio.crystal_frequency = CrystalFrequency::Clk32_768Khz;
    radio.injection_side = InjectionSide::HighSide;
    // 22 * 8192 - 225 000 = -44 776
    assert_eq!(radio.download([0, 22, 0, 0, 0]).output_frequency, 0);
}

#[test]
fn getters_read_what_download_reads() {
    let radio = radio();
    let read_bytes = [0xAF, 0xCA, 0x80, 0xA5, 0x00];
    assert_eq!(radio.get_frequency(read_bytes), 100_000_000);
    assert_eq!(radio.get_signal_level(read_bytes), 10);
    assert_eq!(radio.get_sound_mode(read_bytes), SoundMode::Stereo);
    let read_bytes = [0x2F, 0xBE, 0x00, 0x10, 0x00];
    assert_eq!(radio.get_frequency(read_bytes), 99_900_000);
    assert_eq!(radio.get_signal_level(read_bytes), 1);
    assert_eq!(radio.get_sound_mode(read_bytes), SoundMode::Mono);
}

#[test]
fn what_is_written_reads_back_as_the_same_station() {
    for side in [InjectionSide::HighSide, InjectionSide::LowSide] {
        for clock in [
            CrystalFrequency::Clk32_768Khz,
            CrystalFrequency::Clk6_5MHz,
            CrystalFrequency::Clk13Mhz,
        ] {
            for band in [BandLimits::EuropeUS, BandLimits::Japanese] {
                let mut radio = TEA5767::new(0, band, SoundMode::Stereo).0;
                radio.injection_side = side;
                radio.crystal_frequency = clock;
                let (low, high) = match band {
                    BandLimits::EuropeUS => BAND_LIMITS_EUROPE_US,
                    BandLimits::Japanese => BAND_LIMITS_JAPANESE,
                };
                let mut station = low;
                while station <= high {
                    let write_bytes = radio.set_frequency(station);
                    assert_eq!(radio.get_frequency(write_bytes), station);
                    station += 100_000;
                }
            }
        }
    }
}
