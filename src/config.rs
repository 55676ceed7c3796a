use vstd::prelude::*;

verus! {

/// Severity threshold of the logging add-on: messages below it are dropped.
#[derive(Clone, Copy, Debug, PartialEq, Eq, Structural)]
pub enum LogLevel {
    Off,
    Error,
    Warn,
    Info,
    Debug,
    Trace,
}

/// The choices made once, at launch, that shape the setup hook.
#[derive(Clone, Copy, Debug, PartialEq, Eq, Structural)]
pub struct StartupConfig {
    /// Print a console notice at each milestone of setup.
    pub verbose: bool,
    /// Attach the logging add-on with this threshold, or attach none.
    pub log_level: Option<LogLevel>,
}

impl StartupConfig {
    /// The configuration of a build: a debug build is verbose and attaches
    /// the logging add-on at `Warn`; a release build does neither.
    pub fn for_build(debug: bool) -> (c: StartupConfig)
        ensures
            c.verbose == debug,
            c.log_level == (if debug { Some(LogLevel::Warn) } else { None::<LogLevel> }),
    {
        if debug {
            StartupConfig { verbose: true, log_level: Some(LogLevel::Warn) }
        } else {
            StartupConfig { verbose: false, log_level: None }
        }
    }
}

/// The label under which the host runtime registers the main window.
pub fn main_window_label() -> (r: &'static str)
    ensures
        r@ == "main"@,
{
    "main"
}

} // verus!
