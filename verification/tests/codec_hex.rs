use redgear_a15::codec::breathing_frame;
use redgear_a15::codec::continuous_frame;
use redgear_a15::codec::dpi_frame;
use redgear_a15::codec::interval_frame;
use redgear_a15::codec::led_mode_frame;
use redgear_a15::codec::led_status_frame;
use redgear_a15::codec::repeat_frame;
use redgear_a15::codec::BreathingSpeed;
use redgear_a15::codec::ContinouslyState;
use redgear_a15::codec::DpiVal;
use redgear_a15::codec::LedBrightness;
use redgear_a15::codec::LedMode;
use redgear_a15::codec::LedStatus;
use redgear_a15::hexfmt::bytes_to_hex;
use redgear_a15::hexfmt::convert_str_hex;

#[test]
fn continuous_hex_strings() {
    assert_eq!(ContinouslyState::Enable.hex(), "0407fdfffffc64ff");
    assert_eq!(ContinouslyState::Disable.hex(), "0407fdfffffc1bff");
}

#[test]
fn brightness_hex_pairs() {
    assert_eq!(LedBrightness::All.hex(), ("040745f80638ff00", "0407ff00ffffff71"));
    assert_eq!(LedBrightness::Half.hex(), ("040745f80630ff00", "0407ff00ffffff79"));
}

#[test]
fn led_status_hex_strings() {
    assert_eq!(LedStatus::Enable.hex(), "040701fe817e807f");
    assert_eq!(LedStatus::Disable.hex(), "040701fe8976807f");
}

#[test]
fn dpi_hex_strings() {
    assert_eq!(DpiVal::DPI1.hex(), "040700ff817e807f");
    assert_eq!(DpiVal::DPI2.hex(), "040701fe817e807f");
    assert_eq!(DpiVal::DPI3.hex(), "040702fd817e807f");
    assert_eq!(DpiVal::DPI4.hex(), "040703fd817e807f");
    assert_eq!(DpiVal::DPI5.hex(), "040704fd817e807f");
    assert_eq!(DpiVal::DPI6.hex(), "040705fd817e807f");
    assert_eq!(DpiVal::DPI7.hex(), "040706fd817e807f");
    assert_eq!(DpiVal::DPI8.hex(), "040707fd817e807f");
}

#[test]
fn led_mode_hex_strings() {
    assert_eq!(LedMode::Dpi.hex(), "040701fe817e807f");
    assert_eq!(LedMode::Multi.hex(), "040701fe827d807f");
    assert_eq!(LedMode::Rainbow.hex(), "040701fe837c807f");
    assert_eq!(LedMode::FloeLight.hex(), "040701fe847b807f");
    assert_eq!(LedMode::Waltz.hex(), "040701fe857a807f");
    assert_eq!(LedMode::FourSeasons.hex(), "040701fe8679807f");
    assert_eq!(LedMode::Off.hex(), "040701fe8778807f");
}

#[test]
fn breathing_hex_strings_are_all_eight_bytes() {
    assert_eq!(BreathingSpeed::BS1.hex(), "040701fee11e807f");
    assert_eq!(BreathingSpeed::BS2.hex(), "040701fec13e807f");
    assert_eq!(BreathingSpeed::BS3.hex(), "040701fea15e807f");
    assert_eq!(BreathingSpeed::BS4.hex(), "040701fe817e807f");
    assert_eq!(BreathingSpeed::BS5.hex(), "040701fe619e807f");
    assert_eq!(BreathingSpeed::BS6.hex(), "040701fe41be807f");
    assert_eq!(BreathingSpeed::BS7.hex(), "040701fe21de807f");
    assert_eq!(BreathingSpeed::BS8.hex(), "040701fe01fe807f");
    assert_eq!(BreathingSpeed::BS5.hex().len(), 16);
}

#[test]
fn hex_methods_decode_to_the_frame_encodings() {
    assert_eq!(convert_str_hex(ContinouslyState::Enable.hex()), continuous_frame(ContinouslyState::Enable).bytes);
    assert_eq!(convert_str_hex(LedStatus::Disable.hex()), led_status_frame(LedStatus::Disable).bytes);
    assert_eq!(convert_str_hex(DpiVal::DPI7.hex()), dpi_frame(DpiVal::DPI7).bytes);
    assert_eq!(convert_str_hex(LedMode::Waltz.hex()), led_mode_frame(LedMode::Waltz).bytes);
    assert_eq!(convert_str_hex(BreathingSpeed::BS5.hex()), breathing_frame(BreathingSpeed::BS5).bytes);
}

#[test]
fn convert_str_hex_decodes_pairs_of_digits() {
    assert_eq!(convert_str_hex("04070afd03a1fe03"), vec![0x04, 0x07, 0x0a, 0xfd, 0x03, 0xa1, 0xfe, 0x03]);
    assert_eq!(convert_str_hex(""), Vec::<u8>::new());
    assert_eq!(convert_str_hex("FFff00"), vec![0xff, 0xff, 0x00]);
}

#[test]
fn bytes_to_hex_writes_two_upper_case_digits_per_byte() {
    assert_eq!(bytes_to_hex(&[0x04, 0x07, 0xfd, 0x00, 0x1b]), "0407FD001B");
    assert_eq!(bytes_to_hex(&[]), "");
}

#[test]
fn hex_round_trip() {
    let bytes = vec![0x00, 0x7f, 0x80, 0xff, 0x0a, 0xa1];
    assert_eq!(convert_str_hex(&bytes_to_hex(&bytes)), bytes);
}

#[test]
fn value_frames_place_the_byte_at_the_fixed_offset() {
    assert_eq!(repeat_frame(0x05).bytes, convert_str_hex("04070afd05a1fe03"));
    assert_eq!(repeat_frame(0xff).bytes, convert_str_hex("04070afdffa1fe03"));
    assert_eq!(interval_frame(0x08).bytes, convert_str_hex("040721fe08fc94ff"));
    assert_eq!(interval_frame(0x2a).bytes, convert_str_hex("040721fe2afc94ff"));
}

#[test]
fn brightness_value_parsing() {
    assert_eq!("All".parse::<LedBrightness>(), Ok(LedBrightness::All));
    assert_eq!("Half".parse::<LedBrightness>(), Ok(LedBrightness::Half));
    assert!("all".parse::<LedBrightness>().is_err());
    assert!("".parse::<LedBrightness>().is_err());
}

#[test]
fn dpi_value_parsing() {
    assert_eq!("1".parse::<DpiVal>(), Ok(DpiVal::DPI1));
    assert_eq!("8".parse::<DpiVal>(), Ok(DpiVal::DPI8));
    assert!("9".parse::<DpiVal>().is_err());
    assert!("12".parse::<DpiVal>().is_err());
}

#[test]
fn breathing_value_parsing() {
    assert_eq!("1".parse::<BreathingSpeed>(), Ok(BreathingSpeed::BS1));
    assert_eq!("4".parse::<BreathingSpeed>(), Ok(BreathingSpeed::BS4));
    assert_eq!("8".parse::<BreathingSpeed>(), Ok(BreathingSpeed::BS8));
    assert_eq!("0".parse::<BreathingSpeed>(), Err("Invalid breathing speed"));
}
