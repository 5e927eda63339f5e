use redgear_a15::codec::BreathingSpeed;
use redgear_a15::codec::ContinouslyState;
use redgear_a15::codec::DpiVal;
use redgear_a15::codec::LedBrightness;
use redgear_a15::codec::LedMode;
use redgear_a15::codec::LedStatus;
use redgear_a15::compose::reset_val;
use redgear_a15::compose::Reset;
use redgear_a15::compose::Terminal;
use redgear_a15::config::apply_command;
use redgear_a15::config::resolve_configuration;
use redgear_a15::config::Commands;
use redgear_a15::config::ConfigError;
use redgear_a15::config::FireControl;
use redgear_a15::config::GlobalMouseOptions;
use redgear_a15::config::LedArgs;
use redgear_a15::config::MouseArgs;
use redgear_a15::config::MouseConfig;

fn empty_args() -> MouseArgs {
    MouseArgs {
        no_confirm: false,
        fire_control: None,
        moving_speed: None,
        double_click_speed: None,
        rolling_speed: None,
        led_args: None,
        command: None,
    }
}

fn empty_opts() -> GlobalMouseOptions {
    GlobalMouseOptions {
        fire_control: None,
        moving_speed: None,
        double_click_speed: None,
        rolling_speed: None,
        led_args: None,
    }
}

#[test]
fn default_mouse_config_values() {
    let c = MouseConfig::default();
    assert_eq!(c.repeat, 3);
    assert_eq!(c.firing_interval, 6);
    assert_eq!(c.continously, ContinouslyState::Disable);
    assert_eq!(c.moving_speed, 6);
    assert_eq!(c.double_click_speed, 7);
    assert_eq!(c.rolling_speed, 3);
    assert_eq!(c.led_args.led_brightness, Some(LedBrightness::All));
    assert_eq!(c.led_args.breathing_speed, Some(BreathingSpeed::BS4));
    assert_eq!(c.led_status, LedStatus::Enable);
    assert_eq!(c.dpi, DpiVal::DPI2);
    assert_eq!(c.led_mode, LedMode::Dpi);
    assert!(!c.reset);
}

#[test]
fn reset_val_lists_the_factory_defaults_in_order() {
    let list = reset_val();
    assert_eq!(
        list,
        vec![
            Reset::RepeatVal(3),
            Reset::FiringInterval(6),
            Reset::Continously(ContinouslyState::Disable),
            Reset::DpiVal(DpiVal::DPI6),
            Reset::LedStatus(LedStatus::Enable),
            Reset::LedBrightness(LedBrightness::All),
            Reset::LedMode(LedMode::Multi),
            Reset::BreathingSpeed(BreathingSpeed::BS6),
        ]
    );
}

#[test]
fn apply_command_records_each_selector() {
    let base = MouseConfig::default();
    let with_dpi = apply_command(base, Commands::Dpi { opts: empty_opts(), dpi_val: DpiVal::DPI8 });
    assert_eq!(with_dpi.dpi, DpiVal::DPI8);
    assert_eq!(with_dpi.repeat, base.repeat);
    let with_mode = apply_command(base, Commands::Led { opts: empty_opts(), mode: LedMode::Waltz });
    assert_eq!(with_mode.led_mode, LedMode::Waltz);
    let with_status = apply_command(
        base,
        Commands::LedStatus { opts: empty_opts(), state: LedStatus::Disable },
    );
    assert_eq!(with_status.led_status, LedStatus::Disable);
    let with_reset = apply_command(base, Commands::Reset);
    assert!(with_reset.reset);
}

#[test]
fn unimplemented_speed_settings_are_rejected() {
    let mut args = empty_args();
    args.moving_speed = Some(4);
    assert_eq!(resolve_configuration(&args), Err(ConfigError::MovingSpeedUnsupported));
    let mut args = empty_args();
    args.double_click_speed = Some(4);
    assert_eq!(resolve_configuration(&args), Err(ConfigError::DoubleClickSpeedUnsupported));
    let mut args = empty_args();
    args.rolling_speed = Some(4);
    assert_eq!(resolve_configuration(&args), Err(ConfigError::RollingSpeedUnsupported));
}

#[test]
fn an_empty_invocation_is_rejected() {
    assert_eq!(resolve_configuration(&empty_args()), Err(ConfigError::NothingRequested));
    let mut args = empty_args();
    args.fire_control = Some(FireControl { repeat: None, firing_interval: None, continously: None });
    args.led_args = Some(LedArgs { led_brightness: None, breathing_speed: None });
    assert_eq!(resolve_configuration(&args), Err(ConfigError::NothingRequested));
}

#[test]
fn requested_settings_carry_over() {
    let mut args = empty_args();
    args.fire_control = Some(FireControl {
        repeat: Some(7),
        firing_interval: Some(2),
        continously: Some(ContinouslyState::Enable),
    });
    args.led_args = Some(LedArgs {
        led_brightness: Some(LedBrightness::Half),
        breathing_speed: Some(BreathingSpeed::BS8),
    });
    args.command = Some(Commands::Dpi { opts: empty_opts(), dpi_val: DpiVal::DPI3 });
    let cfg = resolve_configuration(&args).unwrap();
    assert_eq!(cfg.repeat, Some(7));
    assert_eq!(cfg.firing_interval, Some(2));
    assert_eq!(cfg.continuous, Some(ContinouslyState::Enable));
    assert_eq!(cfg.led_brightness, Some(LedBrightness::Half));
    assert_eq!(cfg.breathing_speed, Some(BreathingSpeed::BS8));
    assert_eq!(cfg.terminal, Some(Terminal::Dpi(DpiVal::DPI3)));
}

#[test]
fn reset_command_resolves_to_the_reset_terminal() {
    let mut args = empty_args();
    args.command = Some(Commands::Reset);
    let cfg = resolve_configuration(&args).unwrap();
    assert_eq!(cfg.terminal, Some(Terminal::FactoryReset));
    assert_eq!(cfg.repeat, None);
}
