//! The configuration surface: the argument shapes the command line hands
//! over, the resolved full-settings record with its documented defaults,
//! and the translation of arguments into one engine `Configuration`.

use vstd::prelude::*;

use crate::codec::BreathingSpeed;
use crate::codec::ContinouslyState;
use crate::codec::DpiVal;
use crate::codec::LedBrightness;
use crate::codec::LedMode;
use crate::codec::LedStatus;
use crate::compose::Configuration;
use crate::compose::Terminal;

verus! {

/// Auto-fire options.
#[derive(Debug, Clone, Copy, PartialEq, Eq)]
pub struct FireControl {
    pub repeat: Option<u8>,
    pub firing_interval: Option<u8>,
    pub continously: Option<ContinouslyState>,
}

/// LED options.
#[derive(Debug, Clone, Copy, PartialEq, Eq)]
pub struct LedArgs {
    pub led_brightness: Option<LedBrightness>,
    pub breathing_speed: Option<BreathingSpeed>,
}

/// The option block repeated under every subcommand.
#[derive(Debug, Clone, Copy, PartialEq, Eq)]
pub struct GlobalMouseOptions {
    pub fire_control: Option<FireControl>,
    pub moving_speed: Option<u8>,
    pub double_click_speed: Option<u8>,
    pub rolling_speed: Option<u8>,
    pub led_args: Option<LedArgs>,
}

/// The subcommands: the terminal selectors of an invocation.
#[derive(Debug, Clone, Copy, PartialEq, Eq)]
pub enum Commands {
    Dpi { opts: GlobalMouseOptions, dpi_val: DpiVal },
    Led { opts: GlobalMouseOptions, mode: LedMode },
    LedStatus { opts: GlobalMouseOptions, state: LedStatus },
    Reset,
}

/// Everything the command line can request in one invocation.
#[derive(Debug, Clone, Copy, PartialEq, Eq)]
pub struct MouseArgs {
    pub no_confirm: bool,
    pub fire_control: Option<FireControl>,
    pub moving_speed: Option<u8>,
    pub double_click_speed: Option<u8>,
    pub rolling_speed: Option<u8>,
    pub led_args: Option<LedArgs>,
    pub command: Option<Commands>,
}

/// A fully resolved settings record, with the defaults the command line
/// documents.
#[derive(Debug, Clone, Copy, PartialEq, Eq)]
pub struct MouseConfig {
    pub repeat: u8,
    pub firing_interval: u8,
    pub continously: ContinouslyState,
    pub moving_speed: u8,
    pub double_click_speed: u8,
    pub rolling_speed: u8,
    pub led_args: LedArgs,
    pub led_status: LedStatus,
    pub dpi: DpiVal,
    pub led_mode: LedMode,
    pub reset: bool,
}

/// The documented default settings record.
pub open spec fn spec_default_mouse_config() -> MouseConfig {
    MouseConfig {
        repeat: 3,
        firing_interval: 6,
        continously: ContinouslyState::Disable,
        moving_speed: 6,
        double_click_speed: 7,
        rolling_speed: 3,
        led_args: LedArgs {
            led_brightness: Some(LedBrightness::All),
            breathing_speed: Some(BreathingSpeed::BS4),
        },
        led_status: LedStatus::Enable,
        dpi: DpiVal::DPI2,
        led_mode: LedMode::Dpi,
        reset: false,
    }
}

impl Default for MouseConfig {
    /// The documented default settings record.
    fn default() -> (c: MouseConfig)
        ensures
            c == spec_default_mouse_config(),
    {
        MouseConfig {
            repeat: 3,
            firing_interval: 6,
            continously: ContinouslyState::Disable,
            moving_speed: 6,
            double_click_speed: 7,
            rolling_speed: 3,
            led_args: LedArgs {
                led_brightness: Some(LedBrightness::All),
                breathing_speed: Some(BreathingSpeed::BS4),
            },
            led_status: LedStatus::Enable,
            dpi: DpiVal::DPI2,
            led_mode: LedMode::Dpi,
            reset: false,
        }
    }
}

/// Records a subcommand in a settings record.
pub fn apply_command(config: MouseConfig, cmd: Commands) -> (r: MouseConfig)
    ensures
        match cmd {
            Commands::Dpi { dpi_val, .. } => r == MouseConfig { dpi: dpi_val, ..config },
            Commands::Led { mode, .. } => r == MouseConfig { led_mode: mode, ..config },
            Commands::LedStatus { state, .. } => r == MouseConfig { led_status: state, ..config },
            Commands::Reset => r == MouseConfig { reset: true, ..config },
        },
{
    let mut config = config;
    match cmd {
        Commands::Dpi { dpi_val, .. } => {
            config.dpi = dpi_val;
        },
        Commands::Led { mode, .. } => {
            config.led_mode = mode;
        },
        Commands::LedStatus { state, .. } => {
            config.led_status = state;
        },
        Commands::Reset => {
            config.reset = true;
        },
    }
    config
}

/// Why an argument set is rejected before any frame is built.
#[derive(Debug, Clone, Copy, PartialEq, Eq)]
pub enum ConfigError {
    MovingSpeedUnsupported,
    DoubleClickSpeedUnsupported,
    RollingSpeedUnsupported,
    NothingRequested,
}

/// The terminal selector a subcommand stands for.
pub open spec fn spec_terminal_of_command(c: Option<Commands>) -> Option<Terminal> {
    match c {
        None => None,
        Some(Commands::Dpi { dpi_val, .. }) => Some(Terminal::Dpi(dpi_val)),
        Some(Commands::Led { mode, .. }) => Some(Terminal::Mode(mode)),
        Some(Commands::LedStatus { state, .. }) => Some(Terminal::Status(state)),
        Some(Commands::Reset) => Some(Terminal::FactoryReset),
    }
}

/// The settings an argument set requests, setting by setting.
pub open spec fn spec_requested_settings(args: MouseArgs) -> Configuration {
    Configuration {
        repeat: match args.fire_control {
            Some(fc) => fc.repeat,
            None => None,
        },
        firing_interval: match args.fire_control {
            Some(fc) => fc.firing_interval,
            None => None,
        },
        continuous: match args.fire_control {
            Some(fc) => fc.continously,
            None => None,
        },
        led_brightness: match args.led_args {
            Some(la) => la.led_brightness,
            None => None,
        },
        breathing_speed: match args.led_args {
            Some(la) => la.breathing_speed,
            None => None,
        },
        terminal: spec_terminal_of_command(args.command),
    }
}

/// Whether an argument set requests nothing at all.
pub open spec fn spec_requests_nothing(args: MouseArgs) -> bool {
    spec_requested_settings(args) == crate::compose::spec_unset_configuration()
}

/// What resolution returns: the three unimplemented speed settings are
/// rejected first, in the documented order; an empty request is rejected;
/// anything else resolves to the requested settings.
pub open spec fn spec_resolve(args: MouseArgs) -> Result<Configuration, ConfigError> {
    if args.moving_speed is Some {
        Err(ConfigError::MovingSpeedUnsupported)
    } else if args.double_click_speed is Some {
        Err(ConfigError::DoubleClickSpeedUnsupported)
    } else if args.rolling_speed is Some {
        Err(ConfigError::RollingSpeedUnsupported)
    } else if spec_requests_nothing(args) {
        Err(ConfigError::NothingRequested)
    } else {
        Ok(spec_requested_settings(args))
    }
}

/// Translates an argument set into one engine configuration, or the error
/// the invocation is rejected with.
pub fn resolve_configuration(args: &MouseArgs) -> (r: Result<Configuration, ConfigError>)
    ensures
        r == spec_resolve(*args),
{
    if args.moving_speed.is_some() {
        return Err(ConfigError::MovingSpeedUnsupported);
    }
    if args.double_click_speed.is_some() {
        return Err(ConfigError::DoubleClickSpeedUnsupported);
    }
    if args.rolling_speed.is_some() {
        return Err(ConfigError::RollingSpeedUnsupported);
    }
    let requested = Configuration {
        repeat: match args.fire_control {
            Some(fc) => fc.repeat,
            None => None,
        },
        firing_interval: match args.fire_control {
            Some(fc) => fc.firing_interval,
            None => None,
        },
        continuous: match args.fire_control {
            Some(fc) => fc.continously,
            None => None,
        },
        led_brightness: match args.led_args {
            Some(la) => la.led_brightness,
            None => None,
        },
        breathing_speed: match args.led_args {
            Some(la) => la.breathing_speed,
            None => None,
        },
        terminal: match args.command {
            None => None,
            Some(Commands::Dpi { dpi_val, .. }) => Some(Terminal::Dpi(dpi_val)),
            Some(Commands::Led { mode, .. }) => Some(Terminal::Mode(mode)),
            Some(Commands::LedStatus { state, .. }) => Some(Terminal::Status(state)),
            Some(Commands::Reset) => Some(Terminal::FactoryReset),
        },
    };
    let nothing = requested.repeat.is_none() && requested.firing_interval.is_none()
        && requested.continuous.is_none() && requested.led_brightness.is_none()
        && requested.breathing_speed.is_none() && requested.terminal.is_none();
    if nothing {
        proof {
            assert(requested == spec_requested_settings(*args));
            assert(requested == crate::compose::spec_unset_configuration());
        }
        Err(ConfigError::NothingRequested)
    } else {
        Ok(requested)
    }
}

} // verus!
