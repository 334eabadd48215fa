//! A configurable logger: a builder that collects the logger's settings, the settings it
//! resolves to for a build profile, and the rule that decides which log records are written.
//! Also holds the plain-value parts of the plugin editor state.

pub mod builder;
pub mod editor;
pub mod filter;
pub mod laws;
pub mod level;
pub mod logger;

pub use builder::{LoggerBuilder, OutputTarget, SetLoggerError, SetTargetError};
pub use level::LevelFilter;
