//! A builder interface for the logger.

use crate::filter::ModuleDenylist;
use crate::level::LevelFilter;
use crate::logger::LoggerConfig;
use vstd::prelude::*;

verus! {

/// `std::io::Error`, the reason why a file could not be opened; carried through unchanged.
#[verifier::external_type_specification]
#[verifier::external_body]
pub struct ExIoError(std::io::Error);

/// The profile the logger is built for: with debug assertions (`Debug`) or without (`Release`).
#[derive(Debug, Clone, Copy, PartialEq, Eq, Structural)]
pub enum BuildProfile {
    Debug,
    Release,
}

/// Determines where the logger should write its output. If no explicit target is chosen, then a
/// default dynamic target is used instead.
#[derive(Debug, Clone, PartialEq, Eq)]
pub enum OutputTarget {
    /// Write directly to STDERR.
    Stderr,
    /// Write the log output to the file at this path.
    File(String),
}

/// What a [`LoggerBuilder`] holds, as plain values.
pub struct LoggerSettings {
    /// The maximum level when built with debug assertions.
    pub max_level_debug: LevelFilter,
    /// The maximum level when built without debug assertions.
    pub max_level_release: LevelFilter,
    /// Whether the module path is always shown.
    pub always_show_module_path: bool,
    /// Whether the module path is always shown when built with debug assertions.
    pub show_module_path_debug: bool,
    /// The explicitly chosen output target, if any.
    pub output_target: Option<OutputTarget>,
    /// The level filters of crates and module paths.
    pub module_denylist: Map<Seq<char>, LevelFilter>,
}

impl LoggerSettings {
    /// The settings of a new builder.
    pub open spec fn initial() -> LoggerSettings {
        LoggerSettings {
            max_level_debug: LevelFilter::Debug,
            max_level_release: LevelFilter::Warn,
            always_show_module_path: false,
            show_module_path_debug: true,
            output_target: None,
            module_denylist: Map::empty(),
        }
    }

    /// The maximum level the logger gets when built for `profile`.
    pub open spec fn max_level(self, profile: BuildProfile) -> LevelFilter {
        match profile {
            BuildProfile::Debug => self.max_level_debug,
            BuildProfile::Release => self.max_level_release,
        }
    }

    /// Whether the logger built for `profile` always shows the module path.
    pub open spec fn shows_module_path(self, profile: BuildProfile) -> bool {
        match profile {
            BuildProfile::Debug => self.show_module_path_debug || self.always_show_module_path,
            BuildProfile::Release => self.always_show_module_path,
        }
    }

    /// These settings with `name` limited to `level`.
    pub open spec fn with_filter(self, name: Seq<char>, level: LevelFilter) -> LoggerSettings {
        LoggerSettings { module_denylist: self.module_denylist.insert(name, level), ..self }
    }
}

/// Constructs a logger.
#[derive(Debug)]
pub struct LoggerBuilder {
    max_level_debug: LevelFilter,
    max_level_release: LevelFilter,
    always_show_module_path: bool,
    show_module_path_debug: bool,
    output_target: Option<OutputTarget>,
    module_denylist: ModuleDenylist,
}

impl View for LoggerBuilder {
    type V = LoggerSettings;

    closed spec fn view(&self) -> LoggerSettings {
        LoggerSettings {
            max_level_debug: self.max_level_debug,
            max_level_release: self.max_level_release,
            always_show_module_path: self.always_show_module_path,
            show_module_path_debug: self.show_module_path_debug,
            output_target: self.output_target,
            module_denylist: self.module_denylist@,
        }
    }
}

/// An error raised when setting the logger's output target. This can be converted back to the
/// builder using `Into<LoggerBuilder>`.
#[derive(Debug)]
pub enum SetTargetError {
    FileOpenError { builder: LoggerBuilder, path: String, error: std::io::Error },
}

/// An error raised when setting a logger after one has already been set.
#[derive(Debug)]
pub struct SetLoggerError(());

impl From<SetTargetError> for LoggerBuilder {
    fn from(value: SetTargetError) -> (builder: Self) {
        match value {
            SetTargetError::FileOpenError { builder, .. } => builder,
        }
    }
}

impl vstd::std_specs::convert::FromSpecImpl<SetTargetError> for LoggerBuilder {
    open spec fn obeys_from_spec() -> bool {
        true
    }

    open spec fn from_spec(value: SetTargetError) -> LoggerBuilder {
        match value {
            SetTargetError::FileOpenError { builder, .. } => builder,
        }
    }
}

impl SetTargetError {
    /// The builder the failed call was made on.
    pub open spec fn spec_builder(self) -> LoggerBuilder {
        match self {
            SetTargetError::FileOpenError { builder, .. } => builder,
        }
    }

    /// A description of the error: "Could not open '<path>' (<reason>)".
    pub fn message(&self) -> (text: String)
        ensures
            match self {
                SetTargetError::FileOpenError { path, error, .. } => exists|reason: String|
                    vstd::string::to_string_from_display_ensures::<std::io::Error>(error, reason) && text@
                        == "Could not open '"@ + path@ + "' ("@ + reason@ + ")"@,
            },
    {
        match self {
            SetTargetError::FileOpenError { path, error, .. } => {
                let reason = error.to_string();
                let mut text = String::from_str("Could not open '");
                text.append(path.as_str());
                text.append("' (");
                text.append(reason.as_str());
                text.append(")");
                text
            },
        }
    }
}

impl SetLoggerError {
    /// The outcome of installing the logger: it succeeds when the logger instance could be
    /// stored and then registered as the global logger.
    pub fn install_outcome(instance_stored: bool, logger_registered: bool) -> (r: Result<
        (),
        SetLoggerError,
    >)
        ensures
            r is Ok <==> (instance_stored && logger_registered),
    {
        if instance_stored && logger_registered {
            Ok(())
        } else {
            Err(SetLoggerError(()))
        }
    }

    /// A description of the error.
    pub fn message(&self) -> (text: String)
        ensures
            text@ == "Tried to set a global logger after one has already been configured"@,
    {
        String::from_str("Tried to set a global logger after one has already been configured")
    }
}

impl Default for LoggerBuilder {
    fn default() -> (builder: Self)
        ensures
            builder@ == LoggerSettings::initial(),
    {
        Self::new()
    }
}

impl LoggerBuilder {
    /// Create a builder for a logger: `Debug` is the maximum level with debug assertions and
    /// `Warn` without, and the module path is shown in debug builds.
    pub fn new() -> (builder: Self)
        ensures
            builder@ == LoggerSettings::initial(),
    {
        let builder = Self {
            max_level_debug: LevelFilter::Debug,
            max_level_release: LevelFilter::Warn,
            always_show_module_path: false,
            show_module_path_debug: true,
            output_target: None,
            module_denylist: ModuleDenylist::new(),
        };
        builder
    }

    /// Set the maximum level filter to use when compiled *without* debug assertions.
    ///
    /// Defaults to [`LevelFilter::Warn`].
    pub fn max_level_release(self, max_level: LevelFilter) -> (builder: Self)
        ensures
            builder@ == (LoggerSettings { max_level_release: max_level, ..self@ }),
    {
        let mut builder = self;
        builder.max_level_release = max_level;
        builder
    }

    /// Set the maximum level filter to use when compiled *with* debug assertions.
    ///
    /// Defaults to [`LevelFilter::Debug`].
    pub fn max_level_debug(self, max_level: LevelFilter) -> (builder: Self)
        ensures
            builder@ == (LoggerSettings { max_level_debug: max_level, ..self@ }),
    {
        let mut builder = self;
        builder.max_level_debug = max_level;
        builder
    }

    /// Always show the module path. Normally this is only shown for the messages on the `Debug`
    /// level or on higher verbosity levels.
    pub fn always_show_module_path(self) -> (builder: Self)
        ensures
            builder@ == (LoggerSettings { always_show_module_path: true, ..self@ }),
    {
        let mut builder = self;
        builder.always_show_module_path = true;
        builder
    }

    /// Always show the module path when compiled in debug mode.
    ///
    /// Defaults to `true`.
    pub fn show_module_path_in_debug(self, show: bool) -> (builder: Self)
        ensures
            builder@ == (LoggerSettings { show_module_path_debug: show, ..self@ }),
    {
        let mut builder = self;
        builder.show_module_path_debug = show;
        builder
    }

    /// Filter out log messages produced by the given crate that are higher than the given log
    /// level.
    pub fn filter_crate(self, crate_name: String, level: LevelFilter) -> (builder: Self)
        ensures
            builder@ == self@.with_filter(crate_name@, level),
    {
        let mut builder = self;
        builder.module_denylist.insert(crate_name, level);
        builder
    }

    /// Filter out log messages produced by the given module that are higher than the given log
    /// level.
    ///
    /// Module names are matched exactly and case sensitively. Filtering based on a module prefix
    /// is currently not supported.
    pub fn filter_module(self, module_name: String, level: LevelFilter) -> (builder: Self)
        ensures
            builder@ == self@.with_filter(module_name@, level),
    {
        let mut builder = self;
        builder.module_denylist.insert(module_name, level);
        builder
    }

    /// Explicitly set the output target for the logger. For a file target, `file_opened` is the
    /// outcome of opening the file at its path; it is not looked at for `Stderr`. Returns an
    /// error, which holds this builder unchanged, if the file could not be opened.
    pub fn with_output_target(self, target: OutputTarget, file_opened: Result<(), std::io::Error>) -> (r:
        Result<Self, SetTargetError>)
        ensures
            (target is Stderr || file_opened is Ok) ==> (r is Ok && r->Ok_0@ == (LoggerSettings {
                output_target: Some(target),
                ..self@
            })),
            (target is File && file_opened is Err) ==> r == Err::<Self, SetTargetError>(
                SetTargetError::FileOpenError {
                    builder: self,
                    path: target->File_0,
                    error: file_opened->Err_0,
                },
            ),
    {
        match target {
            OutputTarget::Stderr => {
                let mut builder = self;
                builder.output_target = Some(OutputTarget::Stderr);
                Ok(builder)
            },
            OutputTarget::File(path) => match file_opened {
                Ok(()) => {
                    let mut builder = self;
                    builder.output_target = Some(OutputTarget::File(path));
                    Ok(builder)
                },
                Err(error) => Err(SetTargetError::FileOpenError { builder: self, path, error }),
            },
        }
    }

    /// The settings the logger gets when it is installed from this builder for `profile`.
    pub fn into_config(self, profile: BuildProfile) -> (config: LoggerConfig)
        ensures
            config.max_level == self@.max_level(profile),
            config.show_module_path == self@.shows_module_path(profile),
            config.output_target == self@.output_target,
            config.module_denylist@ == self@.module_denylist,
    {
        let max_level = match profile {
            BuildProfile::Debug => self.max_level_debug,
            BuildProfile::Release => self.max_level_release,
        };
        let show_module_path = match profile {
            BuildProfile::Debug => self.show_module_path_debug || self.always_show_module_path,
            BuildProfile::Release => self.always_show_module_path,
        };
        LoggerConfig {
            max_level,
            show_module_path,
            output_target: self.output_target,
            module_denylist: self.module_denylist,
        }
    }
}

} // verus!
