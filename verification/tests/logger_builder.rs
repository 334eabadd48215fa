use nice_log::builder::{BuildProfile, LoggerBuilder, OutputTarget, SetLoggerError, SetTargetError};
use nice_log::level::{Level, LevelFilter};

#[test]
fn new_builder_defaults_per_profile() {
    let debug = LoggerBuilder::new().into_config(BuildProfile::Debug);
    assert_eq!(debug.max_level, LevelFilter::Debug);
    assert!(debug.show_module_path);
    assert!(debug.output_target.is_none());

    let release = LoggerBuilder::new().into_config(BuildProfile::Release);
    assert_eq!(release.max_level, LevelFilter::Warn);
    assert!(!release.show_module_path);
}

#[test]
fn default_matches_new() {
    let config = LoggerBuilder::default().into_config(BuildProfile::Release);
    assert_eq!(config.max_level, LevelFilter::Warn);
    assert!(!config.show_module_path);
}

#[test]
fn release_level_only_affects_release_builds() {
    let builder = LoggerBuilder::new().max_level_release(LevelFilter::Trace);
    assert_eq!(builder.into_config(BuildProfile::Release).max_level, LevelFilter::Trace);
    let builder = LoggerBuilder::new().max_level_release(LevelFilter::Trace);
    assert_eq!(builder.into_config(BuildProfile::Debug).max_level, LevelFilter::Debug);
}

#[test]
fn debug_level_only_affects_debug_builds() {
    let builder = LoggerBuilder::new().max_level_debug(LevelFilter::Off);
    assert_eq!(builder.into_config(BuildProfile::Debug).max_level, LevelFilter::Off);
    let builder = LoggerBuilder::new().max_level_debug(LevelFilter::Off);
    assert_eq!(builder.into_config(BuildProfile::Release).max_level, LevelFilter::Warn);
}

#[test]
fn module_path_settings() {
    let config = LoggerBuilder::new().always_show_module_path().into_config(BuildProfile::Release);
    assert!(config.show_module_path);
    let config = LoggerBuilder::new().show_module_path_in_debug(false).into_config(BuildProfile::Debug);
    assert!(!config.show_module_path);
    let config = LoggerBuilder::new()
        .show_module_path_in_debug(false)
        .always_show_module_path()
        .into_config(BuildProfile::Debug);
    assert!(config.show_module_path);
    // The debug setting has no effect on release builds.
    let config = LoggerBuilder::new().show_module_path_in_debug(true).into_config(BuildProfile::Release);
    assert!(!config.show_module_path);
}

#[test]
fn filter_crate_and_module_fill_the_denylist() {
    let config = LoggerBuilder::new()
        .filter_crate(String::from("wgpu_core"), LevelFilter::Error)
        .filter_module(String::from("naga::front"), LevelFilter::Off)
        .filter_crate(String::from("wgpu_core"), LevelFilter::Warn)
        .into_config(BuildProfile::Debug);
    assert_eq!(config.module_denylist.get("wgpu_core"), Some(LevelFilter::Warn));
    assert_eq!(config.module_denylist.get("naga::front"), Some(LevelFilter::Off));
    assert_eq!(config.module_denylist.get("naga"), None);
    assert_eq!(config.module_denylist.get("WGPU_CORE"), None);
}

#[test]
fn stderr_target_is_always_accepted() {
    let error = std::io::Error::new(std::io::ErrorKind::NotFound, "unused");
    let builder = LoggerBuilder::new()
        .with_output_target(OutputTarget::Stderr, Err(error))
        .expect("stderr is always available");
    assert_eq!(builder.into_config(BuildProfile::Debug).output_target, Some(OutputTarget::Stderr));
}

#[test]
fn opened_file_target_is_kept() {
    let builder = LoggerBuilder::new()
        .with_output_target(OutputTarget::File(String::from("/tmp/plugin.log")), Ok(()))
        .expect("the file was opened");
    assert_eq!(
        builder.into_config(BuildProfile::Release).output_target,
        Some(OutputTarget::File(String::from("/tmp/plugin.log")))
    );
}

#[test]
fn failed_file_target_gives_the_builder_back() {
    let builder = LoggerBuilder::new().max_level_release(LevelFilter::Info);
    let error = std::io::Error::new(std::io::ErrorKind::PermissionDenied, "denied");
    let result = builder.with_output_target(OutputTarget::File(String::from("/root/x.log")), Err(error));
    let err = match result {
        Ok(_) => panic!("opening failed, so setting the target must fail"),
        Err(err) => err,
    };
    assert_eq!(err.message(), "Could not open '/root/x.log' (denied)");
    match &err {
        SetTargetError::FileOpenError { path, error, .. } => {
            assert_eq!(path, "/root/x.log");
            assert_eq!(error.kind(), std::io::ErrorKind::PermissionDenied);
        }
    }
    let back: LoggerBuilder = err.into();
    let config = back.into_config(BuildProfile::Release);
    assert_eq!(config.max_level, LevelFilter::Info);
    assert!(config.output_target.is_none());
}

#[test]
fn install_outcome_needs_both_steps() {
    assert!(SetLoggerError::install_outcome(true, true).is_ok());
    assert!(SetLoggerError::install_outcome(true, false).is_err());
    assert!(SetLoggerError::install_outcome(false, true).is_err());
    let err = SetLoggerError::install_outcome(false, false).unwrap_err();
    assert_eq!(
        err.message(),
        "Tried to set a global logger after one has already been configured"
    );
}

#[test]
fn level_filters_allow_less_verbose_levels() {
    assert!(LevelFilter::Warn.allows(Level::Error));
    assert!(LevelFilter::Warn.allows(Level::Warn));
    assert!(!LevelFilter::Warn.allows(Level::Info));
    assert!(!LevelFilter::Off.allows(Level::Error));
    assert!(LevelFilter::Trace.allows(Level::Trace));
    assert_eq!(Level::Debug.verbosity(), 4);
    assert_eq!(LevelFilter::Off.verbosity(), 0);
}
