//! Pretty, Python-style reports for fatal, unrecoverable errors.
//!
//! The library turns a resolved call stack — a sequence of frames, each with
//! an optional symbol name, source file and line number — into a trimmed,
//! ordered, styled textual report together with the panic payload, location
//! and thread name.  Every step of that pipeline is verified: frame
//! classification, backtrace windowing, filename trimming and rendering.
//!
//! Capturing the stack, reading the environment, reading source files and
//! writing the styled report to a terminal are left to the embedding binary,
//! which hands this library plain values and receives the report as a list
//! of styled text segments.
use vstd::prelude::*;
use vstd::string::StringExecFns;

pub mod frame;
pub mod render;
pub mod text;
pub mod window;

verus! {

/// Defines how verbose the backtrace is supposed to be.
#[derive(Debug, Clone, Copy, PartialEq, Eq, PartialOrd, Ord, Structural)]
pub enum Verbosity {
    /// Print a small message including the panic payload and the panic location.
    Minimal,
    /// Everything in `Minimal` and additionally print a backtrace.
    Medium,
    /// Everything in `Medium` plus source snippets for all backtrace locations.
    Full,
}

impl Verbosity {
    /// The numeric rank of a level: `Minimal` is 0, `Medium` is 1, `Full` is 2.
    pub open spec fn spec_level(self) -> int {
        match self {
            Verbosity::Minimal => 0,
            Verbosity::Medium => 1,
            Verbosity::Full => 2,
        }
    }

    /// The numeric rank of this level.
    pub fn level(&self) -> (n: u8)
        ensures
            n as int == self.spec_level(),
    {
        match self {
            Verbosity::Minimal => 0u8,
            Verbosity::Medium => 1u8,
            Verbosity::Full => 2u8,
        }
    }

    /// Whether this level shows at least as much as `other`.
    pub fn at_least(&self, other: &Verbosity) -> (r: bool)
        ensures
            r == (self.spec_level() >= other.spec_level()),
    {
        self.level() >= other.level()
    }

    /// The level that an optional environment signal selects: an absent
    /// signal means `Minimal`, the value `full` means `Full`, and any other
    /// value means `Medium`.
    pub open spec fn spec_from_signal(signal: Option<Seq<char>>) -> Verbosity {
        match signal {
            Option::None => Verbosity::Minimal,
            Option::Some(v) => if v == "full"@ {
                Verbosity::Full
            } else {
                Verbosity::Medium
            },
        }
    }

    /// Reads the level off an optional environment signal.
    pub fn from_signal(signal: &Option<String>) -> (v: Verbosity)
        ensures
            v == Verbosity::spec_from_signal(text::opt_view(*signal)),
    {
        match signal {
            Option::None => Verbosity::Minimal,
            Option::Some(s) => {
                if text::str_eq(s.as_str(), "full") {
                    Verbosity::Full
                } else {
                    Verbosity::Medium
                }
            },
        }
    }

    /// The value that installing this level writes back into the environment
    /// signal; an empty value asks for the signal to be removed.
    pub open spec fn spec_env_value(self) -> Seq<char> {
        match self {
            Verbosity::Full => "full"@,
            Verbosity::Medium => "1"@,
            Verbosity::Minimal => ""@,
        }
    }

    /// The value that installing this level writes back into the environment
    /// signal.
    pub fn env_value(&self) -> (r: &'static str)
        ensures
            r@ == self.spec_env_value(),
    {
        match self {
            Verbosity::Full => "full",
            Verbosity::Medium => "1",
            Verbosity::Minimal => "",
        }
    }
}

/// The mathematical content of a `Settings` value.
#[verifier::ext_equal]
pub struct SettingsView {
    pub message: Seq<char>,
    pub verbosity: Verbosity,
    pub backtrace_first: bool,
    pub most_recent_first: bool,
    pub lineno_suffix: bool,
}

/// Configuration for panic printing.
#[derive(Debug, Clone)]
pub struct Settings {
    pub message: String,
    pub verbosity: Verbosity,
    pub backtrace_first: bool,
    pub most_recent_first: bool,
    pub lineno_suffix: bool,
}

impl View for Settings {
    type V = SettingsView;

    open spec fn view(&self) -> SettingsView {
        SettingsView {
            message: self.message@,
            verbosity: self.verbosity,
            backtrace_first: self.backtrace_first,
            most_recent_first: self.most_recent_first,
            lineno_suffix: self.lineno_suffix,
        }
    }
}

/// The signal-independent baseline settings: the fixed greeting, `Minimal`
/// verbosity, the backtrace before the panic message, the most recent call
/// first, and line numbers rendered separately from the filename.
/// `Settings::new` derives the verbosity on top of this from the
/// environment signal it is given.
pub open spec fn spec_default_settings() -> SettingsView {
    SettingsView {
        message: "The application panicked (crashed)."@,
        verbosity: Verbosity::Minimal,
        backtrace_first: true,
        most_recent_first: true,
        lineno_suffix: false,
    }
}

impl Default for Settings {
    /// The signal-independent baseline policy.  The verbosity starts at
    /// `Minimal`; `Settings::new` derives it from an environment signal
    /// instead.
    fn default() -> (s: Self)
        ensures
            s@ == spec_default_settings(),
    {
        Settings {
            message: String::from_str("The application panicked (crashed)."),
            verbosity: Verbosity::Minimal,
            backtrace_first: true,
            most_recent_first: true,
            lineno_suffix: false,
        }
    }
}

impl Settings {
    /// The default reporting policy, its verbosity derived once from the
    /// given environment signal.  Reading the signal off the environment
    /// is left to the embedding binary, which hands it in as a plain
    /// value.
    pub fn new(signal: &Option<String>) -> (s: Self)
        ensures
            s@ == (SettingsView {
                verbosity: Verbosity::spec_from_signal(text::opt_view(*signal)),
                ..spec_default_settings()
            }),
    {
        Settings::default().verbosity(Verbosity::from_signal(signal))
    }

    /// Common settings for debugging: the defaults at `Full` verbosity,
    /// whatever any environment signal says.
    pub fn debug() -> (s: Self)
        ensures
            s@ == (SettingsView { verbosity: Verbosity::Full, ..spec_default_settings() }),
    {
        Settings::default().verbosity(Verbosity::Full)
    }

    /// Controls the "greeting" message of the panic.
    ///
    /// Defaults to `"The application panicked (crashed)."`.
    pub fn message(self, message: String) -> (s: Self)
        ensures
            s@ == (SettingsView { message: message@, ..self@ }),
    {
        Settings { message, ..self }
    }

    /// Controls the verbosity level.
    pub fn verbosity(self, v: Verbosity) -> (s: Self)
        ensures
            s@ == (SettingsView { verbosity: v, ..self@ }),
    {
        Settings { verbosity: v, ..self }
    }

    /// Controls the backtrace position.
    ///
    /// Defaults to `true` which causes the backtrace to be printed above
    /// the panic message.
    pub fn backtrace_first(self, value: bool) -> (s: Self)
        ensures
            s@ == (SettingsView { backtrace_first: value, ..self@ }),
    {
        Settings { backtrace_first: value, ..self }
    }

    /// Controls the most-recent-first behavior.
    ///
    /// Defaults to `true` which causes the most recent call to be printed
    /// first.
    pub fn most_recent_first(self, value: bool) -> (s: Self)
        ensures
            s@ == (SettingsView { most_recent_first: value, ..self@ }),
    {
        Settings { most_recent_first: value, ..self }
    }

    /// Append the line number as suffix to the filename.
    ///
    /// Defaults to `false` which causes line numbers to be rendered
    /// separately.  Specifically this renders `File "foo.rs:42"` instead of
    /// `File "foo.rs", line 42` which lets some terminals open the editor
    /// at the right location on click.
    pub fn lineno_suffix(self, value: bool) -> (s: Self)
        ensures
            s@ == (SettingsView { lineno_suffix: value, ..self@ }),
    {
        Settings { lineno_suffix: value, ..self }
    }
}

/// Builds the settings that installing the default policy applies: at `Full`
/// verbosity for a debug build, and otherwise at the verbosity the optional
/// environment signal selects.  Registering the process-wide hook that uses
/// these settings is left to the embedding binary.
pub fn install(debug_build: bool, signal: &Option<String>) -> (s: Settings)
    ensures
        s@ == (SettingsView {
            verbosity: if debug_build {
                Verbosity::Full
            } else {
                Verbosity::spec_from_signal(text::opt_view(*signal))
            },
            ..spec_default_settings()
        }),
{
    if debug_build {
        Settings::debug()
    } else {
        Settings::new(signal)
    }
}

/// Builds the settings that a debug installation applies: the defaults at
/// `Full` verbosity.  Registering the process-wide hook that uses these
/// settings is left to the embedding binary.
pub fn debug_install() -> (s: Settings)
    ensures
        s@ == (SettingsView { verbosity: Verbosity::Full, ..spec_default_settings() }),
{
    Settings::debug()
}

} // verus!
