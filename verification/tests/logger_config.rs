use nice_log::builder::{BuildProfile, LoggerBuilder};
use nice_log::filter::ModuleDenylist;
use nice_log::level::{Level, LevelFilter};
use nice_log::logger::crate_name_of;

#[test]
fn crate_name_is_the_part_before_the_first_separator() {
    assert_eq!(crate_name_of("foo::bar::baz"), "foo");
    assert_eq!(crate_name_of("foo"), "foo");
    assert_eq!(crate_name_of(""), "");
    assert_eq!(crate_name_of("a:b::c"), "a:b");
    assert_eq!(crate_name_of("::x"), "");
    assert_eq!(crate_name_of("ünï::côde"), "ünï");
}

#[test]
fn max_level_limits_records() {
    let config = LoggerBuilder::new().into_config(BuildProfile::Release);
    assert!(config.enabled(Level::Error, Some("my_plugin")));
    assert!(config.enabled(Level::Warn, None));
    assert!(!config.enabled(Level::Info, Some("my_plugin")));
}

#[test]
fn crate_filter_applies_to_all_modules_of_the_crate() {
    let config = LoggerBuilder::new()
        .max_level_debug(LevelFilter::Trace)
        .filter_crate(String::from("wgpu_core"), LevelFilter::Warn)
        .into_config(BuildProfile::Debug);
    assert!(config.enabled(Level::Warn, Some("wgpu_core::device")));
    assert!(!config.enabled(Level::Info, Some("wgpu_core::device")));
    assert!(!config.enabled(Level::Info, Some("wgpu_core")));
    // Whole crate names only: a crate with a longer name is not affected.
    assert!(config.enabled(Level::Trace, Some("wgpu_core_ext::x")));
    assert!(config.enabled(Level::Trace, Some("my_plugin")));
    // Records without a module path only pass the maximum level.
    assert!(config.enabled(Level::Trace, None));
}

#[test]
fn module_filter_matches_the_whole_path_only() {
    let config = LoggerBuilder::new()
        .max_level_debug(LevelFilter::Trace)
        .filter_module(String::from("naga::front"), LevelFilter::Off)
        .into_config(BuildProfile::Debug);
    assert!(!config.enabled(Level::Error, Some("naga::front")));
    assert!(config.enabled(Level::Trace, Some("naga::front::wgsl")));
    assert!(config.enabled(Level::Trace, Some("naga::back")));
}

#[test]
fn module_path_shown_for_verbose_levels() {
    let config = LoggerBuilder::new().into_config(BuildProfile::Release);
    assert!(!config.shows_module_path(Level::Error));
    assert!(!config.shows_module_path(Level::Info));
    assert!(config.shows_module_path(Level::Debug));
    assert!(config.shows_module_path(Level::Trace));
    let config = LoggerBuilder::new().always_show_module_path().into_config(BuildProfile::Release);
    assert!(config.shows_module_path(Level::Error));
}

#[test]
fn denylist_insert_and_get() {
    let mut list = ModuleDenylist::new();
    assert_eq!(list.get("a"), None);
    list.insert(String::from("a"), LevelFilter::Info);
    list.insert(String::from("b"), LevelFilter::Error);
    list.insert(String::from("a"), LevelFilter::Trace);
    assert_eq!(list.get("a"), Some(LevelFilter::Trace));
    assert_eq!(list.get("b"), Some(LevelFilter::Error));
    assert_eq!(list.get("c"), None);
}
