//! Run configuration: which capture source a run reads from, and whether
//! observed frames are mirrored to an output capture file. Exactly one of a
//! live interface and an offline capture file must be selected, and the
//! selection is checked before any source is opened.

use vstd::prelude::*;

verus! {

/// What the caller asked for: at most one input and an optional output path.
#[derive(Clone, Debug, PartialEq, Eq)]
pub struct Config {
    /// Name of a live interface to capture from.
    pub interface: Option<String>,
    /// Path of a previously written capture file to replay.
    pub file: Option<String>,
    /// Path of an output capture file that mirrors every observed frame.
    pub savefile: Option<String>,
}

/// The capture source a valid configuration selects.
#[derive(Clone, Debug, PartialEq, Eq)]
pub enum InputChoice {
    /// Capture live from the named interface.
    Live(String),
    /// Replay the capture file at the given path.
    Offline(String),
}

/// Why a configuration was rejected.
#[derive(Clone, Copy, Debug, PartialEq, Eq, Structural)]
pub enum ConfigError {
    /// Neither an interface nor a capture file was selected.
    NoInputSelected,
    /// Both an interface and a capture file were selected at once.
    BothInputsSelected,
}

impl ConfigError {
    /// A descriptive message for the user.
    pub fn message(&self) -> (r: String)
        ensures
            *self == ConfigError::NoInputSelected ==> r@
                == "no input selected: name a live interface or a capture file"@,
            *self == ConfigError::BothInputsSelected ==> r@
                == "both a live interface and a capture file were selected; choose one"@,
    {
        match self {
            ConfigError::NoInputSelected => {
                "no input selected: name a live interface or a capture file".to_owned()
            },
            ConfigError::BothInputsSelected => {
                "both a live interface and a capture file were selected; choose one".to_owned()
            },
        }
    }
}

/// Decide which capture source the configuration selects. Rejected exactly
/// when it names both a live interface and an offline file, or neither; the
/// optional output file plays no part in the decision.
pub fn select_input(cfg: Config) -> (r: Result<InputChoice, ConfigError>)
    ensures
        cfg.interface is Some && cfg.file is Some ==> r == Err::<InputChoice, ConfigError>(
            ConfigError::BothInputsSelected,
        ),
        cfg.interface is None && cfg.file is None ==> r == Err::<InputChoice, ConfigError>(
            ConfigError::NoInputSelected,
        ),
        cfg.file is None ==> (cfg.interface matches Some(name) ==> r == Ok::<InputChoice,
            ConfigError,
        >(InputChoice::Live(name))),
        cfg.interface is None ==> (cfg.file matches Some(path) ==> r == Ok::<InputChoice,
            ConfigError,
        >(InputChoice::Offline(path))),
{
    match (cfg.interface, cfg.file) {
        (Some(_), Some(_)) => Err(ConfigError::BothInputsSelected),
        (None, None) => Err(ConfigError::NoInputSelected),
        (Some(name), None) => Ok(InputChoice::Live(name)),
        (None, Some(path)) => Ok(InputChoice::Offline(path)),
    }
}

} // verus!
