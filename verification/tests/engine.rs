use redgear_a15::codec::repeat_frame;
use redgear_a15::codec::repeat_placeholder;
use redgear_a15::codec::ContinouslyState;
use redgear_a15::codec::DpiVal;
use redgear_a15::codec::LedBrightness;
use redgear_a15::compose::apply_reset_entry;
use redgear_a15::compose::compose;
use redgear_a15::compose::reset_sequence;
use redgear_a15::compose::reset_val;
use redgear_a15::compose::Configuration;
use redgear_a15::compose::Terminal;
use redgear_a15::hexfmt::convert_str_hex;
use redgear_a15::patch::apply_patch;
use redgear_a15::template::template;

fn frame(hex: &str) -> Vec<u8> {
    convert_str_hex(hex)
}

#[test]
fn unset_configuration_reproduces_template() {
    let out = compose(&Configuration::unset());
    let base = template();
    assert_eq!(out.frames.len(), 48);
    assert_eq!(out, base);
}

#[test]
fn repeat_patch_places_value_five() {
    let base = template();
    let patched = apply_patch(&base, &repeat_placeholder(), &repeat_frame(5).bytes);
    assert_eq!(patched.frames[43].bytes, frame("04070afd05a1fe03"));
    for i in 0..48 {
        if i != 43 {
            assert_eq!(patched.frames[i], base.frames[i]);
        }
    }
}

#[test]
fn repeat_patch_is_idempotent() {
    let base = template();
    let once = apply_patch(&base, &repeat_placeholder(), &repeat_frame(5).bytes);
    let twice = apply_patch(&once, &repeat_placeholder(), &repeat_frame(5).bytes);
    assert_eq!(once, twice);
}

#[test]
fn brightness_patch_touches_exactly_the_pair() {
    let base = template();
    let mut cfg = Configuration::unset();
    cfg.led_brightness = Some(LedBrightness::Half);
    let out = compose(&cfg);
    assert_eq!(out.frames[3].bytes, frame("040745f80630ff00"));
    assert_eq!(out.frames[10].bytes, frame("0407ff00ffffff79"));
    let mut changed = 0;
    for i in 0..48 {
        if out.frames[i] != base.frames[i] {
            changed += 1;
        }
    }
    assert_eq!(changed, 2);
}

#[test]
fn continuous_fire_forces_repeat_sentinel() {
    let mut cfg = Configuration::unset();
    cfg.repeat = Some(9);
    cfg.continuous = Some(ContinouslyState::Enable);
    let out = compose(&cfg);
    assert_eq!(out.frames[43].bytes, frame("04070afdffa1fe03"));
    assert_eq!(out.frames[45].bytes, frame("0407fdfffffc64ff"));
}

#[test]
fn continuous_fire_disable_rewrites_only_its_frame() {
    let base = template();
    let mut cfg = Configuration::unset();
    cfg.continuous = Some(ContinouslyState::Disable);
    let out = compose(&cfg);
    assert_eq!(out.frames[45].bytes, frame("0407fdfffffc1bff"));
    for i in 0..48 {
        if i != 45 {
            assert_eq!(out.frames[i], base.frames[i]);
        }
    }
}

#[test]
fn reset_equals_the_documented_composition() {
    let built = reset_sequence();
    let mut folded = template();
    for entry in reset_val() {
        folded = apply_reset_entry(&folded, &entry);
    }
    assert_eq!(built, folded);
}

#[test]
fn reset_terminal_discards_other_requests() {
    let mut cfg = Configuration::unset();
    cfg.repeat = Some(200);
    cfg.terminal = Some(Terminal::FactoryReset);
    let out = compose(&cfg);
    assert_eq!(out, reset_sequence());
}

#[test]
fn dpi_terminal_rewrites_the_led_frame() {
    let base = template();
    let mut cfg = Configuration::unset();
    cfg.terminal = Some(Terminal::Dpi(DpiVal::DPI6));
    let out = compose(&cfg);
    assert_eq!(out.frames[11].bytes, frame("040705fd817e807f"));
    for i in 0..48 {
        if i != 11 {
            assert_eq!(out.frames[i], base.frames[i]);
        }
    }
}

#[test]
fn repeat_value_survives_without_continuous_fire() {
    let mut cfg = Configuration::unset();
    cfg.repeat = Some(9);
    let out = compose(&cfg);
    assert_eq!(out.frames[43].bytes, frame("04070afd09a1fe03"));
}
