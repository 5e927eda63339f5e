//! The composition policy: the fixed order in which setting patches are
//! applied to the factory template, the factory fallback for every setting
//! left unset, and the cross-setting rewrite that enabling continuous fire
//! imposes on the repeat count.
//!
//! Stage order: repeat count, firing interval, LED brightness (a pair of
//! frames), continuous fire (frame substitution plus the repeat-sentinel
//! override), breathing speed, then the single terminal selector (DPI
//! level, LED mode, LED status, or factory reset).

use vstd::prelude::*;

use crate::codec::BreathingSpeed;
use crate::codec::ContinouslyState;
use crate::codec::DpiVal;
use crate::codec::LedBrightness;
use crate::codec::LedMode;
use crate::codec::LedStatus;
use crate::codec::brightness_first_frame;
use crate::codec::brightness_first_placeholder;
use crate::codec::brightness_second_frame;
use crate::codec::brightness_second_placeholder;
use crate::codec::breathing_frame;
use crate::codec::continuous_frame;
use crate::codec::continuous_placeholder;
use crate::codec::dpi_frame;
use crate::codec::interval_frame;
use crate::codec::interval_placeholder;
use crate::codec::led_mode_frame;
use crate::codec::led_placeholder;
use crate::codec::led_status_frame;
use crate::codec::repeat_frame;
use crate::codec::repeat_placeholder;
use crate::codec::spec_breathing_frame;
use crate::codec::spec_brightness_first_frame;
use crate::codec::spec_brightness_first_placeholder;
use crate::codec::spec_brightness_second_frame;
use crate::codec::spec_brightness_second_placeholder;
use crate::codec::spec_continuous_frame;
use crate::codec::spec_continuous_placeholder;
use crate::codec::spec_dpi_frame;
use crate::codec::spec_interval_frame;
use crate::codec::spec_interval_placeholder;
use crate::codec::spec_led_mode_frame;
use crate::codec::spec_led_placeholder;
use crate::codec::spec_led_status_frame;
use crate::codec::spec_repeat_frame;
use crate::codec::spec_repeat_placeholder;
use crate::codec::REPEAT_DISABLED_SENTINEL;
use crate::frame::FrameSequence;
use crate::patch::apply_patch;
use crate::patch::spec_apply_patch;
use crate::template::spec_template;
use crate::template::template;
use crate::template::TEMPLATE_LEN;

verus! {

/// The repeat count carried by the factory template.
pub const FACTORY_REPEAT: u8 = 3;

/// The firing interval carried by the factory template.
pub const FACTORY_FIRING_INTERVAL: u8 = 8;

/// The single terminal selector of an invocation.
#[derive(Debug, Clone, Copy, PartialEq, Eq)]
pub enum Terminal {
    Dpi(DpiVal),
    Mode(LedMode),
    Status(LedStatus),
    FactoryReset,
}

/// One fully resolved set of requested settings; `None` means the setting
/// was left unset and the factory value is kept.
#[derive(Debug, Clone, Copy, PartialEq, Eq)]
pub struct Configuration {
    pub repeat: Option<u8>,
    pub firing_interval: Option<u8>,
    pub continuous: Option<ContinouslyState>,
    pub led_brightness: Option<LedBrightness>,
    pub breathing_speed: Option<BreathingSpeed>,
    pub terminal: Option<Terminal>,
}

impl Configuration {
    /// A configuration with every setting left unset.
    pub fn unset() -> (c: Configuration)
        ensures
            c == spec_unset_configuration(),
    {
        Configuration {
            repeat: None,
            firing_interval: None,
            continuous: None,
            led_brightness: None,
            breathing_speed: None,
            terminal: None,
        }
    }
}

/// The configuration with every setting left unset.
pub open spec fn spec_unset_configuration() -> Configuration {
    Configuration {
        repeat: None,
        firing_interval: None,
        continuous: None,
        led_brightness: None,
        breathing_speed: None,
        terminal: None,
    }
}

/// The repeat count the pipeline applies: the requested one, or the factory
/// value.
pub open spec fn spec_resolved_repeat(cfg: Configuration) -> u8 {
    match cfg.repeat {
        Some(v) => v,
        None => FACTORY_REPEAT,
    }
}

/// The firing interval the pipeline applies.
pub open spec fn spec_resolved_interval(cfg: Configuration) -> u8 {
    match cfg.firing_interval {
        Some(v) => v,
        None => FACTORY_FIRING_INTERVAL,
    }
}

/// The LED brightness the pipeline applies.
pub open spec fn spec_resolved_brightness(cfg: Configuration) -> LedBrightness {
    match cfg.led_brightness {
        Some(b) => b,
        None => LedBrightness::All,
    }
}

/// The breathing speed the pipeline applies.
pub open spec fn spec_resolved_breathing(cfg: Configuration) -> BreathingSpeed {
    match cfg.breathing_speed {
        Some(b) => b,
        None => BreathingSpeed::BS4,
    }
}

/// The continuous-fire stage: a no-op when unset; otherwise the state's
/// frame substitution and, when enabling, the rewrite of the repeat frame
/// to the disabled sentinel.  The rewrite targets the repeat frame exactly
/// as the earlier repeat stage left it, so it lands whatever repeat value
/// was requested.
pub open spec fn spec_continuous_stage(
    s: Seq<Seq<u8>>,
    c: Option<ContinouslyState>,
    applied_repeat: u8,
) -> Seq<Seq<u8>> {
    match c {
        None => s,
        Some(st) => {
            let substituted = spec_apply_patch(
                s,
                spec_continuous_placeholder(),
                spec_continuous_frame(st),
            );
            if st is Enable {
                spec_apply_patch(
                    substituted,
                    spec_repeat_frame(applied_repeat),
                    spec_repeat_frame(REPEAT_DISABLED_SENTINEL),
                )
            } else {
                substituted
            }
        },
    }
}

/// The terminal stage: at most one of the DPI level, LED mode and LED
/// status rewrites of the shared LED frame.  A factory reset never reaches
/// this stage.
pub open spec fn spec_terminal_stage(s: Seq<Seq<u8>>, t: Option<Terminal>) -> Seq<Seq<u8>> {
    match t {
        None => s,
        Some(Terminal::Dpi(d)) => spec_apply_patch(s, spec_led_placeholder(), spec_dpi_frame(d)),
        Some(Terminal::Mode(m)) => spec_apply_patch(
            s,
            spec_led_placeholder(),
            spec_led_mode_frame(m),
        ),
        Some(Terminal::Status(st)) => spec_apply_patch(
            s,
            spec_led_placeholder(),
            spec_led_status_frame(st),
        ),
        Some(Terminal::FactoryReset) => s,
    }
}

/// The full settings pipeline over the factory template, stage by stage in
/// the fixed order.
pub open spec fn spec_compose_settings(cfg: Configuration) -> Seq<Seq<u8>> {
    let after_repeat = spec_apply_patch(
        spec_template(),
        spec_repeat_placeholder(),
        spec_repeat_frame(spec_resolved_repeat(cfg)),
    );
    let after_interval = spec_apply_patch(
        after_repeat,
        spec_interval_placeholder(),
        spec_interval_frame(spec_resolved_interval(cfg)),
    );
    let after_brightness_first = spec_apply_patch(
        after_interval,
        spec_brightness_first_placeholder(),
        spec_brightness_first_frame(spec_resolved_brightness(cfg)),
    );
    let after_brightness = spec_apply_patch(
        after_brightness_first,
        spec_brightness_second_placeholder(),
        spec_brightness_second_frame(spec_resolved_brightness(cfg)),
    );
    let after_continuous = spec_continuous_stage(
        after_brightness,
        cfg.continuous,
        spec_resolved_repeat(cfg),
    );
    let after_breathing = spec_apply_patch(
        after_continuous,
        spec_led_placeholder(),
        spec_breathing_frame(spec_resolved_breathing(cfg)),
    );
    spec_terminal_stage(after_breathing, cfg.terminal)
}

/// What the engine produces for a configuration: the settings pipeline, or
/// the factory-reset transaction when that terminal selector is chosen.
pub open spec fn spec_compose(cfg: Configuration) -> Seq<Seq<u8>> {
    if cfg.terminal == Some(Terminal::FactoryReset) {
        spec_reset()
    } else {
        spec_compose_settings(cfg)
    }
}

/// Builds the final frame sequence for a configuration.
pub fn compose(cfg: &Configuration) -> (r: FrameSequence)
    ensures
        r@ =~= spec_compose(*cfg),
        r.wf(),
        r@.len() == TEMPLATE_LEN,
{
    if let Some(Terminal::FactoryReset) = cfg.terminal {
        return reset_sequence();
    }
    let repeat_value = match cfg.repeat {
        Some(v) => v,
        None => FACTORY_REPEAT,
    };
    let interval_value = match cfg.firing_interval {
        Some(v) => v,
        None => FACTORY_FIRING_INTERVAL,
    };
    let brightness = match cfg.led_brightness {
        Some(b) => b,
        None => LedBrightness::All,
    };
    let breathing = match cfg.breathing_speed {
        Some(b) => b,
        None => BreathingSpeed::BS4,
    };
    let base = template();
    let after_repeat = apply_patch(&base, &repeat_placeholder(), &repeat_frame(repeat_value).bytes);
    let after_interval = apply_patch(
        &after_repeat,
        &interval_placeholder(),
        &interval_frame(interval_value).bytes,
    );
    let after_brightness_first = apply_patch(
        &after_interval,
        &brightness_first_placeholder(),
        &brightness_first_frame(brightness).bytes,
    );
    let after_brightness = apply_patch(
        &after_brightness_first,
        &brightness_second_placeholder(),
        &brightness_second_frame(brightness).bytes,
    );
    let after_continuous = match cfg.continuous {
        None => after_brightness,
        Some(st) => {
            let substituted = apply_patch(
                &after_brightness,
                &continuous_placeholder(),
                &continuous_frame(st).bytes,
            );
            match st {
                ContinouslyState::Enable => apply_patch(
                    &substituted,
                    &repeat_frame(repeat_value).bytes,
                    &repeat_frame(REPEAT_DISABLED_SENTINEL).bytes,
                ),
                ContinouslyState::Disable => substituted,
            }
        },
    };
    let after_breathing = apply_patch(
        &after_continuous,
        &led_placeholder(),
        &breathing_frame(breathing).bytes,
    );
    let r = match cfg.terminal {
        None => after_breathing,
        Some(Terminal::Dpi(d)) => apply_patch(
            &after_breathing,
            &led_placeholder(),
            &dpi_frame(d).bytes,
        ),
        Some(Terminal::Mode(m)) => apply_patch(
            &after_breathing,
            &led_placeholder(),
            &led_mode_frame(m).bytes,
        ),
        Some(Terminal::Status(st)) => apply_patch(
            &after_breathing,
            &led_placeholder(),
            &led_status_frame(st).bytes,
        ),
        Some(Terminal::FactoryReset) => after_breathing,
    };
    proof {
        assert(r@ =~= spec_compose(*cfg));
    }
    r
}

/// One entry of the factory-reset value list.
#[derive(Debug, Clone, Copy, PartialEq, Eq)]
pub enum Reset {
    RepeatVal(u8),
    FiringInterval(u8),
    Continously(ContinouslyState),
    DpiVal(DpiVal),
    LedStatus(LedStatus),
    LedBrightness(LedBrightness),
    LedMode(LedMode),
    BreathingSpeed(BreathingSpeed),
}

/// The documented factory-default value of every listed setting, in the
/// order in which a reset applies them.
pub open spec fn spec_reset_list() -> Seq<Reset> {
    seq![
        Reset::RepeatVal(3),
        Reset::FiringInterval(6),
        Reset::Continously(ContinouslyState::Disable),
        Reset::DpiVal(DpiVal::DPI6),
        Reset::LedStatus(LedStatus::Enable),
        Reset::LedBrightness(LedBrightness::All),
        Reset::LedMode(LedMode::Multi),
        Reset::BreathingSpeed(BreathingSpeed::BS6),
    ]
}

/// The factory-default value list a reset walks through.
pub fn reset_val() -> (r: Vec<Reset>)
    ensures
        r@ =~= spec_reset_list(),
{
    let mut r: Vec<Reset> = Vec::new();
    r.push(Reset::RepeatVal(3));
    r.push(Reset::FiringInterval(6));
    r.push(Reset::Continously(ContinouslyState::Disable));
    r.push(Reset::DpiVal(DpiVal::DPI6));
    r.push(Reset::LedStatus(LedStatus::Enable));
    r.push(Reset::LedBrightness(LedBrightness::All));
    r.push(Reset::LedMode(LedMode::Multi));
    r.push(Reset::BreathingSpeed(BreathingSpeed::BS6));
    r
}

/// The patch one reset entry applies.  A continuous-fire entry substitutes
/// its frame and, when enabling, rewrites the factory repeat frame to the
/// disabled sentinel.
pub open spec fn spec_apply_reset_entry(s: Seq<Seq<u8>>, e: Reset) -> Seq<Seq<u8>> {
    match e {
        Reset::RepeatVal(v) => spec_apply_patch(s, spec_repeat_placeholder(), spec_repeat_frame(v)),
        Reset::FiringInterval(v) => spec_apply_patch(
            s,
            spec_interval_placeholder(),
            spec_interval_frame(v),
        ),
        Reset::Continously(c) => spec_continuous_stage(s, Some(c), FACTORY_REPEAT),
        Reset::DpiVal(d) => spec_apply_patch(s, spec_led_placeholder(), spec_dpi_frame(d)),
        Reset::LedStatus(st) => spec_apply_patch(
            s,
            spec_led_placeholder(),
            spec_led_status_frame(st),
        ),
        Reset::LedBrightness(b) => spec_apply_patch(
            spec_apply_patch(
                s,
                spec_brightness_first_placeholder(),
                spec_brightness_first_frame(b),
            ),
            spec_brightness_second_placeholder(),
            spec_brightness_second_frame(b),
        ),
        Reset::LedMode(m) => spec_apply_patch(s, spec_led_placeholder(), spec_led_mode_frame(m)),
        Reset::BreathingSpeed(b) => spec_apply_patch(
            s,
            spec_led_placeholder(),
            spec_breathing_frame(b),
        ),
    }
}

/// Applies one reset entry to a frame sequence.
pub fn apply_reset_entry(s: &FrameSequence, e: &Reset) -> (r: FrameSequence)
    ensures
        r@ =~= spec_apply_reset_entry(s@, *e),
        s.wf() ==> r.wf(),
        r@.len() == s@.len(),
{
    match e {
        Reset::RepeatVal(v) => apply_patch(s, &repeat_placeholder(), &repeat_frame(*v).bytes),
        Reset::FiringInterval(v) => apply_patch(
            s,
            &interval_placeholder(),
            &interval_frame(*v).bytes,
        ),
        Reset::Continously(c) => {
            let substituted = apply_patch(s, &continuous_placeholder(), &continuous_frame(*c).bytes);
            match c {
                ContinouslyState::Enable => apply_patch(
                    &substituted,
                    &repeat_frame(FACTORY_REPEAT).bytes,
                    &repeat_frame(REPEAT_DISABLED_SENTINEL).bytes,
                ),
                ContinouslyState::Disable => substituted,
            }
        },
        Reset::DpiVal(d) => apply_patch(s, &led_placeholder(), &dpi_frame(*d).bytes),
        Reset::LedStatus(st) => apply_patch(s, &led_placeholder(), &led_status_frame(*st).bytes),
        Reset::LedBrightness(b) => {
            let first = apply_patch(
                s,
                &brightness_first_placeholder(),
                &brightness_first_frame(*b).bytes,
            );
            apply_patch(
                &first,
                &brightness_second_placeholder(),
                &brightness_second_frame(*b).bytes,
            )
        },
        Reset::LedMode(m) => apply_patch(s, &led_placeholder(), &led_mode_frame(*m).bytes),
        Reset::BreathingSpeed(b) => apply_patch(s, &led_placeholder(), &breathing_frame(*b).bytes),
    }
}

/// The reset list applied in order, left to right.
pub open spec fn spec_apply_reset_list(s: Seq<Seq<u8>>, entries: Seq<Reset>) -> Seq<Seq<u8>>
    decreases entries.len(),
{
    if entries.len() == 0 {
        s
    } else {
        spec_apply_reset_list(spec_apply_reset_entry(s, entries[0]), entries.skip(1))
    }
}

/// The factory-reset transaction: every listed factory-default value
/// applied to the template, in the fixed documented order.
pub open spec fn spec_reset() -> Seq<Seq<u8>> {
    spec_apply_reset_list(spec_template(), spec_reset_list())
}

/// Builds the factory-reset transaction.
pub fn reset_sequence() -> (r: FrameSequence)
    ensures
        r@ =~= spec_reset(),
        r.wf(),
        r@.len() == TEMPLATE_LEN,
{
    let entries = reset_val();
    let mut cur = template();
    let mut i: usize = 0;
    proof {
        assert(entries@.skip(0) =~= entries@);
    }
    while i < entries.len()
        invariant
            i <= entries@.len(),
            entries@ =~= spec_reset_list(),
            cur.wf(),
            cur@.len() == TEMPLATE_LEN,
            spec_apply_reset_list(cur@, entries@.skip(i as int)) == spec_reset(),
        decreases entries@.len() - i,
    {
        proof {
            assert(entries@.skip(i as int)[0] == entries@[i as int]);
            assert(entries@.skip(i as int).skip(1) =~= entries@.skip(i as int + 1));
        }
        let next = apply_reset_entry(&cur, &entries[i]);
        proof {
            assert(spec_apply_reset_list(cur@, entries@.skip(i as int))
                == spec_apply_reset_list(
                spec_apply_reset_entry(cur@, entries@[i as int]),
                entries@.skip(i as int + 1),
            ));
        }
        cur = next;
        i = i + 1;
    }
    proof {
        assert(entries@.skip(entries@.len() as int) =~= Seq::<Reset>::empty());
        assert(spec_apply_reset_list(cur@, entries@.skip(entries@.len() as int)) == cur@);
    }
    cur
}

} // verus!
