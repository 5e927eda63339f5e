//! The engine's laws: what the composition pipeline guarantees across
//! stages, proved once and for all configurations.

use vstd::prelude::*;

use crate::codec::ContinouslyState;
use crate::codec::LedBrightness;
use crate::codec::spec_breathing_frame;
use crate::codec::spec_brightness_first_frame;
use crate::codec::spec_brightness_first_placeholder;
use crate::codec::spec_brightness_second_frame;
use crate::codec::spec_brightness_second_placeholder;
use crate::codec::spec_continuous_frame;
use crate::codec::spec_continuous_placeholder;
use crate::codec::spec_interval_placeholder;
use crate::codec::spec_led_placeholder;
use crate::codec::spec_repeat_frame;
use crate::codec::spec_repeat_placeholder;
use crate::codec::BreathingSpeed;
use crate::codec::REPEAT_DISABLED_SENTINEL;
use crate::codec::VALUE_BYTE_OFFSET;
use crate::codec::DpiVal;
use crate::codec::LedMode;
use crate::codec::LedStatus;
use crate::compose::spec_apply_reset_entry;
use crate::compose::spec_apply_reset_list;
use crate::compose::spec_compose;
use crate::compose::spec_compose_settings;
use crate::compose::spec_reset;
use crate::compose::spec_reset_list;
use crate::compose::Reset;
use crate::compose::spec_continuous_stage;
use crate::compose::spec_resolved_repeat;
use crate::compose::spec_terminal_stage;
use crate::compose::spec_unset_configuration;
use crate::compose::Configuration;
use crate::compose::Terminal;
use crate::frame::FRAME_LEN;
use crate::patch::lemma_apply_patch_self;
use crate::patch::lemma_replace_whole_frame;
use crate::patch::spec_apply_patch;
use crate::template::lemma_brightness_first_unique;
use crate::template::lemma_brightness_second_unique;
use crate::template::lemma_repeat_placeholder_unique;
use crate::template::lemma_template_wf;
use crate::template::spec_template;
use crate::template::BRIGHTNESS_FIRST_INDEX;
use crate::template::BRIGHTNESS_SECOND_INDEX;
use crate::template::REPEAT_FRAME_INDEX;
use crate::template::TEMPLATE_LEN;

verus! {

/// With every setting left unset, the pipeline reproduces the factory
/// template byte for byte: each stage substitutes its factory value, whose
/// encoding is exactly what already stands in the template.
pub proof fn law_unset_settings_are_factory()
    ensures
        spec_compose(spec_unset_configuration()) =~= spec_template(),
{
    let cfg = spec_unset_configuration();
    let t = spec_template();
    let s1 = spec_apply_patch(
        t,
        spec_repeat_placeholder(),
        spec_repeat_frame(spec_resolved_repeat(cfg)),
    );
    lemma_apply_patch_self(t, spec_repeat_placeholder());
    assert(s1 =~= t);
    let s2 = spec_apply_patch(
        s1,
        spec_interval_placeholder(),
        crate::codec::spec_interval_frame(crate::compose::spec_resolved_interval(cfg)),
    );
    lemma_apply_patch_self(s1, spec_interval_placeholder());
    assert(s2 =~= t);
    let s3a = spec_apply_patch(
        s2,
        spec_brightness_first_placeholder(),
        spec_brightness_first_frame(crate::compose::spec_resolved_brightness(cfg)),
    );
    lemma_apply_patch_self(s2, spec_brightness_first_placeholder());
    assert(s3a =~= t);
    let s3 = spec_apply_patch(
        s3a,
        spec_brightness_second_placeholder(),
        spec_brightness_second_frame(crate::compose::spec_resolved_brightness(cfg)),
    );
    lemma_apply_patch_self(s3a, spec_brightness_second_placeholder());
    assert(s3 =~= t);
    let s4 = spec_continuous_stage(s3, cfg.continuous, spec_resolved_repeat(cfg));
    assert(s4 == s3);
    assert(spec_breathing_frame(BreathingSpeed::BS4) =~= spec_led_placeholder());
    let s5 = spec_apply_patch(
        s4,
        spec_led_placeholder(),
        spec_breathing_frame(crate::compose::spec_resolved_breathing(cfg)),
    );
    lemma_apply_patch_self(s4, spec_led_placeholder());
    assert(s5 =~= t);
    assert(spec_terminal_stage(s5, cfg.terminal) == s5);
    assert(spec_compose_settings(cfg) =~= t);
}

/// The repeat patch writes the requested value at the fixed offset of the
/// repeat frame and changes nothing else: no other frame, and no other byte
/// of that frame.
pub proof fn law_repeat_patch_exact(v: u8)
    ensures
        spec_apply_patch(spec_template(), spec_repeat_placeholder(), spec_repeat_frame(v))[
            REPEAT_FRAME_INDEX as int
        ] == spec_repeat_frame(v),
        spec_repeat_frame(v)[VALUE_BYTE_OFFSET as int] == v,
        forall|i: int|
            0 <= i < TEMPLATE_LEN && i != REPEAT_FRAME_INDEX ==> #[trigger] spec_apply_patch(
                spec_template(),
                spec_repeat_placeholder(),
                spec_repeat_frame(v),
            )[i] == spec_template()[i],
        forall|k: int|
            0 <= k < FRAME_LEN && k != VALUE_BYTE_OFFSET ==> #[trigger] spec_repeat_frame(v)[k]
                == spec_template()[REPEAT_FRAME_INDEX as int][k],
{
    let t = spec_template();
    let pl = spec_repeat_placeholder();
    let rep = spec_repeat_frame(v);
    let out = spec_apply_patch(t, pl, rep);
    lemma_template_wf();
    lemma_repeat_placeholder_unique();
    assert(t[REPEAT_FRAME_INDEX as int] =~= pl);
    lemma_replace_whole_frame(t[REPEAT_FRAME_INDEX as int], pl, rep);
    assert(out[REPEAT_FRAME_INDEX as int] == rep);
    assert forall|i: int| 0 <= i < TEMPLATE_LEN && i != REPEAT_FRAME_INDEX implies #[trigger] out[i]
        == t[i] by {
        assert(t[i][2] != 0x0a);
        assert(pl[2] == 0x0a);
        lemma_replace_whole_frame(t[i], pl, rep);
    }
}

/// The LED brightness patch touches exactly the two frames of the pair:
/// they take the pair's encodings, and every other frame of the template is
/// unchanged.
pub proof fn law_brightness_patch_touches_pair(b: LedBrightness)
    ensures
        ({
            let out = spec_apply_patch(
                spec_apply_patch(
                    spec_template(),
                    spec_brightness_first_placeholder(),
                    spec_brightness_first_frame(b),
                ),
                spec_brightness_second_placeholder(),
                spec_brightness_second_frame(b),
            );
            &&& out[BRIGHTNESS_FIRST_INDEX as int] == spec_brightness_first_frame(b)
            &&& out[BRIGHTNESS_SECOND_INDEX as int] == spec_brightness_second_frame(b)
            &&& forall|i: int|
                0 <= i < TEMPLATE_LEN && i != BRIGHTNESS_FIRST_INDEX && i
                    != BRIGHTNESS_SECOND_INDEX ==> #[trigger] out[i] == spec_template()[i]
        }),
{
    let t = spec_template();
    let pl1 = spec_brightness_first_placeholder();
    let pl2 = spec_brightness_second_placeholder();
    let f1 = spec_brightness_first_frame(b);
    let f2 = spec_brightness_second_frame(b);
    let mid = spec_apply_patch(t, pl1, f1);
    let out = spec_apply_patch(mid, pl2, f2);
    lemma_template_wf();
    lemma_brightness_first_unique();
    lemma_brightness_second_unique();
    assert(t[BRIGHTNESS_FIRST_INDEX as int] =~= pl1);
    lemma_replace_whole_frame(t[BRIGHTNESS_FIRST_INDEX as int], pl1, f1);
    assert(mid[BRIGHTNESS_FIRST_INDEX as int] == f1);
    assert forall|i: int|
        0 <= i < TEMPLATE_LEN && i != BRIGHTNESS_FIRST_INDEX implies #[trigger] mid[i] == t[i] by {
        assert(t[i][2] != 0x45);
        assert(pl1[2] == 0x45);
        lemma_replace_whole_frame(t[i], pl1, f1);
    }
    // The second patch: the first frame of the pair never matches the
    // second placeholder, whichever brightness was chosen.
    assert(f1[2] == 0x45);
    assert(pl2[2] == 0xff);
    assert(f1.len() == FRAME_LEN);
    lemma_replace_whole_frame(f1, pl2, f2);
    assert(out[BRIGHTNESS_FIRST_INDEX as int] == f1);
    assert(t[BRIGHTNESS_SECOND_INDEX as int] =~= pl2);
    lemma_replace_whole_frame(t[BRIGHTNESS_SECOND_INDEX as int], pl2, f2);
    assert(out[BRIGHTNESS_SECOND_INDEX as int] == f2);
    assert forall|i: int|
        0 <= i < TEMPLATE_LEN && i != BRIGHTNESS_FIRST_INDEX && i
            != BRIGHTNESS_SECOND_INDEX implies #[trigger] out[i] == t[i] by {
        assert(t[i][2] != 0xff || t[i][7] != 0x71);
        assert(pl2[2] == 0xff && pl2[7] == 0x71);
        lemma_replace_whole_frame(t[i], pl2, f2);
    }
}

/// Requesting continuous fire always forces the repeat-count field to the
/// disabled sentinel in the final sequence, whatever explicit repeat value
/// was also requested.  (A factory reset discards the request altogether
/// and is excluded.)
pub proof fn law_continuous_fire_forces_repeat_sentinel(cfg: Configuration)
    requires
        cfg.continuous == Some(ContinouslyState::Enable),
        cfg.terminal != Some(Terminal::FactoryReset),
    ensures
        spec_compose(cfg)[REPEAT_FRAME_INDEX as int] == spec_repeat_frame(
            REPEAT_DISABLED_SENTINEL,
        ),
{
    let t = spec_template();
    let k = REPEAT_FRAME_INDEX as int;
    let rv = spec_resolved_repeat(cfg);
    let rf = spec_repeat_frame(rv);
    let rf_off = spec_repeat_frame(REPEAT_DISABLED_SENTINEL);
    lemma_template_wf();
    let pl_r = spec_repeat_placeholder();
    let s1 = spec_apply_patch(t, pl_r, rf);
    assert(t[k] =~= pl_r);
    lemma_replace_whole_frame(t[k], pl_r, rf);
    assert(s1[k] == rf);
    let ipl = spec_interval_placeholder();
    let ifr = crate::codec::spec_interval_frame(crate::compose::spec_resolved_interval(cfg));
    let s2 = spec_apply_patch(s1, ipl, ifr);
    assert(rf[2] == 0x0a && ipl[2] == 0x21);
    lemma_replace_whole_frame(s1[k], ipl, ifr);
    assert(s2[k] == rf);
    let pl1 = spec_brightness_first_placeholder();
    let f1 = spec_brightness_first_frame(crate::compose::spec_resolved_brightness(cfg));
    let s3a = spec_apply_patch(s2, pl1, f1);
    assert(pl1[2] == 0x45);
    lemma_replace_whole_frame(s2[k], pl1, f1);
    assert(s3a[k] == rf);
    let pl2 = spec_brightness_second_placeholder();
    let f2 = spec_brightness_second_frame(crate::compose::spec_resolved_brightness(cfg));
    let s3 = spec_apply_patch(s3a, pl2, f2);
    assert(pl2[2] == 0xff);
    lemma_replace_whole_frame(s3a[k], pl2, f2);
    assert(s3[k] == rf);
    let cpl = spec_continuous_placeholder();
    let ce = spec_continuous_frame(ContinouslyState::Enable);
    let s4a = spec_apply_patch(s3, cpl, ce);
    assert(cpl[2] == 0xfd);
    lemma_replace_whole_frame(s3[k], cpl, ce);
    assert(s4a[k] == rf);
    let s4 = spec_apply_patch(s4a, rf, rf_off);
    lemma_replace_whole_frame(s4a[k], rf, rf_off);
    assert(s4[k] == rf_off);
    assert(spec_continuous_stage(s3, cfg.continuous, rv) == s4);
    let lpl = spec_led_placeholder();
    let bf = spec_breathing_frame(crate::compose::spec_resolved_breathing(cfg));
    let s5 = spec_apply_patch(s4, lpl, bf);
    assert(rf_off[2] == 0x0a && lpl[2] == 0x01);
    lemma_replace_whole_frame(s4[k], lpl, bf);
    assert(s5[k] == rf_off);
    match cfg.terminal {
        None => {
            assert(spec_compose(cfg)[k] == rf_off);
        },
        Some(Terminal::Dpi(d)) => {
            lemma_replace_whole_frame(s5[k], lpl, crate::codec::spec_dpi_frame(d));
            assert(spec_compose(cfg)[k] == rf_off);
        },
        Some(Terminal::Mode(m)) => {
            lemma_replace_whole_frame(s5[k], lpl, crate::codec::spec_led_mode_frame(m));
            assert(spec_compose(cfg)[k] == rf_off);
        },
        Some(Terminal::Status(st)) => {
            lemma_replace_whole_frame(s5[k], lpl, crate::codec::spec_led_status_frame(st));
            assert(spec_compose(cfg)[k] == rf_off);
        },
        Some(Terminal::FactoryReset) => {
            assert(false);
        },
    }
}

/// Applying the brightness pair patch twice gives the same sequence as
/// applying it once.
pub proof fn law_brightness_patch_idempotent(s: Seq<Seq<u8>>, b: LedBrightness)
    requires
        forall|i: int| 0 <= i < s.len() ==> (#[trigger] s[i]).len() == FRAME_LEN,
    ensures
        ({
            let pl1 = spec_brightness_first_placeholder();
            let pl2 = spec_brightness_second_placeholder();
            let f1 = spec_brightness_first_frame(b);
            let f2 = spec_brightness_second_frame(b);
            let once = spec_apply_patch(spec_apply_patch(s, pl1, f1), pl2, f2);
            spec_apply_patch(spec_apply_patch(once, pl1, f1), pl2, f2) =~= once
        }),
{
    let pl1 = spec_brightness_first_placeholder();
    let pl2 = spec_brightness_second_placeholder();
    let f1 = spec_brightness_first_frame(b);
    let f2 = spec_brightness_second_frame(b);
    let m1 = spec_apply_patch(s, pl1, f1);
    let once = spec_apply_patch(m1, pl2, f2);
    let m2 = spec_apply_patch(once, pl1, f1);
    let twice = spec_apply_patch(m2, pl2, f2);
    assert(f1[2] == 0x45 && f2[2] == 0xff && pl1[2] == 0x45 && pl2[2] == 0xff);
    assert forall|i: int| 0 <= i < s.len() implies #[trigger] twice[i] == once[i] by {
        let a = s[i];
        lemma_replace_whole_frame(a, pl1, f1);
        lemma_replace_whole_frame(m1[i], pl2, f2);
        lemma_replace_whole_frame(once[i], pl1, f1);
        lemma_replace_whole_frame(m2[i], pl2, f2);
    }
}

/// Applying the continuous-fire stage twice, for the same requested state
/// and the same applied repeat value, gives the same sequence as applying
/// it once.
pub proof fn law_continuous_stage_idempotent(s: Seq<Seq<u8>>, st: ContinouslyState, rv: u8)
    requires
        forall|i: int| 0 <= i < s.len() ==> (#[trigger] s[i]).len() == FRAME_LEN,
    ensures
        ({
            let once = spec_continuous_stage(s, Some(st), rv);
            spec_continuous_stage(once, Some(st), rv) =~= once
        }),
{
    let cpl = spec_continuous_placeholder();
    let cf = spec_continuous_frame(st);
    let rf = spec_repeat_frame(rv);
    let rf_off = spec_repeat_frame(REPEAT_DISABLED_SENTINEL);
    match st {
        ContinouslyState::Disable => {
            let once = spec_apply_patch(s, cpl, cf);
            let twice = spec_apply_patch(once, cpl, cf);
            assert(cf[6] == 0x1b && cpl[6] == 0x94);
            assert forall|i: int| 0 <= i < s.len() implies #[trigger] twice[i] == once[i] by {
                lemma_replace_whole_frame(s[i], cpl, cf);
                lemma_replace_whole_frame(once[i], cpl, cf);
            }
        },
        ContinouslyState::Enable => {
            let m1 = spec_apply_patch(s, cpl, cf);
            let once = spec_apply_patch(m1, rf, rf_off);
            let m2 = spec_apply_patch(once, cpl, cf);
            let twice = spec_apply_patch(m2, rf, rf_off);
            assert(cf[2] == 0xfd && cf[6] == 0x64 && cpl[6] == 0x94);
            assert(rf[2] == 0x0a && rf_off[2] == 0x0a && cpl[2] == 0xfd);
            assert forall|i: int| 0 <= i < s.len() implies #[trigger] twice[i] == once[i] by {
                lemma_replace_whole_frame(s[i], cpl, cf);
                lemma_replace_whole_frame(m1[i], rf, rf_off);
                lemma_replace_whole_frame(once[i], cpl, cf);
                lemma_replace_whole_frame(m2[i], rf, rf_off);
            }
        },
    }
}

/// The factory-reset transaction is exactly the listed factory-default
/// values applied to the template, in the fixed documented order, by the
/// same patch primitives that serve ad hoc configuration.
pub proof fn law_reset_is_composition()
    ensures
        spec_reset() == spec_apply_reset_entry(
            spec_apply_reset_entry(
                spec_apply_reset_entry(
                    spec_apply_reset_entry(
                        spec_apply_reset_entry(
                            spec_apply_reset_entry(
                                spec_apply_reset_entry(
                                    spec_apply_reset_entry(spec_template(), Reset::RepeatVal(3)),
                                    Reset::FiringInterval(6),
                                ),
                                Reset::Continously(ContinouslyState::Disable),
                            ),
                            Reset::DpiVal(DpiVal::DPI6),
                        ),
                        Reset::LedStatus(LedStatus::Enable),
                    ),
                    Reset::LedBrightness(LedBrightness::All),
                ),
                Reset::LedMode(LedMode::Multi),
            ),
            Reset::BreathingSpeed(BreathingSpeed::BS6),
        ),
{
    let l = spec_reset_list();
    let s0 = spec_template();
    let s1 = spec_apply_reset_entry(s0, Reset::RepeatVal(3));
    let s2 = spec_apply_reset_entry(s1, Reset::FiringInterval(6));
    let s3 = spec_apply_reset_entry(s2, Reset::Continously(ContinouslyState::Disable));
    let s4 = spec_apply_reset_entry(s3, Reset::DpiVal(DpiVal::DPI6));
    let s5 = spec_apply_reset_entry(s4, Reset::LedStatus(LedStatus::Enable));
    let s6 = spec_apply_reset_entry(s5, Reset::LedBrightness(LedBrightness::All));
    let s7 = spec_apply_reset_entry(s6, Reset::LedMode(LedMode::Multi));
    let s8 = spec_apply_reset_entry(s7, Reset::BreathingSpeed(BreathingSpeed::BS6));
    assert(l.skip(1).skip(1) =~= l.skip(2));
    assert(l.skip(2).skip(1) =~= l.skip(3));
    assert(l.skip(3).skip(1) =~= l.skip(4));
    assert(l.skip(4).skip(1) =~= l.skip(5));
    assert(l.skip(5).skip(1) =~= l.skip(6));
    assert(l.skip(6).skip(1) =~= l.skip(7));
    assert(l.skip(7).skip(1) =~= l.skip(8));
    assert(l.skip(1)[0] == l[1] && l.skip(2)[0] == l[2] && l.skip(3)[0] == l[3] && l.skip(4)[0]
        == l[4] && l.skip(5)[0] == l[5] && l.skip(6)[0] == l[6] && l.skip(7)[0] == l[7]);
    assert(spec_apply_reset_list(s0, l) == spec_apply_reset_list(s1, l.skip(1)));
    assert(spec_apply_reset_list(s1, l.skip(1)) == spec_apply_reset_list(s2, l.skip(2)));
    assert(spec_apply_reset_list(s2, l.skip(2)) == spec_apply_reset_list(s3, l.skip(3)));
    assert(spec_apply_reset_list(s3, l.skip(3)) == spec_apply_reset_list(s4, l.skip(4)));
    assert(spec_apply_reset_list(s4, l.skip(4)) == spec_apply_reset_list(s5, l.skip(5)));
    assert(spec_apply_reset_list(s5, l.skip(5)) == spec_apply_reset_list(s6, l.skip(6)));
    assert(spec_apply_reset_list(s6, l.skip(6)) == spec_apply_reset_list(s7, l.skip(7)));
    assert(spec_apply_reset_list(s7, l.skip(7)) == spec_apply_reset_list(s8, l.skip(8)));
    assert(l.skip(8).len() == 0);
    assert(spec_apply_reset_list(s8, l.skip(8)) == s8);
}

} // verus!
