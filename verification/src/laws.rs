//! Properties of the logger that span its operations.

use crate::builder::{BuildProfile, LoggerBuilder, LoggerSettings, SetTargetError};
use crate::level::{Level, LevelFilter};
use crate::logger::{crate_name, is_crate_name_end, is_separator_at, writes_record};
use vstd::prelude::*;
use vstd::std_specs::convert::FromSpec;

verus! {

/// The release maximum level is only used by release builds, and the debug maximum level only
/// by debug builds: setting one leaves the other profile's level as it was.
pub proof fn law_profile_levels_independent(settings: LoggerSettings, level: LevelFilter)
    ensures
        (LoggerSettings { max_level_release: level, ..settings }).max_level(BuildProfile::Release)
            == level,
        (LoggerSettings { max_level_release: level, ..settings }).max_level(BuildProfile::Debug)
            == settings.max_level(BuildProfile::Debug),
        (LoggerSettings { max_level_debug: level, ..settings }).max_level(BuildProfile::Debug)
            == level,
        (LoggerSettings { max_level_debug: level, ..settings }).max_level(BuildProfile::Release)
            == settings.max_level(BuildProfile::Release),
{
}

/// Once the module path is always shown, both profiles show it, whatever the debug setting.
pub proof fn law_always_shown_module_path(settings: LoggerSettings, profile: BuildProfile)
    ensures
        (LoggerSettings { always_show_module_path: true, ..settings }).shows_module_path(profile),
{
}

/// A filter set for a name is the one read back for that name, and the filters of other names
/// are unchanged; setting a name twice keeps the last filter.
pub proof fn law_filter_read_back(
    settings: LoggerSettings,
    name: Seq<char>,
    level: LevelFilter,
    other: Seq<char>,
    later: LevelFilter,
)
    ensures
        settings.with_filter(name, level).module_denylist.contains_key(name),
        settings.with_filter(name, level).module_denylist[name] == level,
        other != name ==> settings.with_filter(name, level).module_denylist.contains_key(other)
            == settings.module_denylist.contains_key(other),
        other != name ==> settings.with_filter(name, level).module_denylist[other]
            == settings.module_denylist[other],
        settings.with_filter(name, level).with_filter(name, later) == settings.with_filter(
            name,
            later,
        ),
{
    assert(settings.with_filter(name, level).with_filter(name, later).module_denylist
        =~= settings.with_filter(name, later).module_denylist);
}

/// An error from setting an output target converts back into the builder the call was made on.
pub proof fn law_failed_target_gives_back_builder(
    builder: LoggerBuilder,
    path: String,
    error: std::io::Error,
)
    ensures
        <LoggerBuilder as FromSpec<SetTargetError>>::from_spec(
            SetTargetError::FileOpenError { builder, path, error },
        ) == builder,
{
}

/// Every module path has a crate name: the part before its first `::`, or the whole path.
pub proof fn law_crate_name_shape(path: Seq<char>)
    ensures
        is_crate_name_end(path, crate_name(path).len() as int),
        crate_name(path) == path.take(crate_name(path).len() as int),
{
    lemma_crate_name_end_from(path, 0);
}

proof fn lemma_crate_name_end_from(path: Seq<char>, i: int)
    requires
        0 <= i <= path.len(),
        forall|j: int| 0 <= j < i ==> !is_separator_at(path, j),
    ensures
        exists|n: int| is_crate_name_end(path, n),
    decreases path.len() - i,
{
    if i == path.len() {
        assert(is_crate_name_end(path, i));
    } else if is_separator_at(path, i) {
        assert(is_crate_name_end(path, i));
    } else {
        lemma_crate_name_end_from(path, i + 1);
    }
}

/// A logger that writes a record at some level also writes records of the same origin at every
/// less verbose level.
pub proof fn law_less_verbose_records_written(
    max_level: LevelFilter,
    denylist: Map<Seq<char>, LevelFilter>,
    level: Level,
    quieter: Level,
    module: Option<Seq<char>>,
)
    requires
        writes_record(max_level, denylist, level, module),
        quieter.rank() <= level.rank(),
    ensures
        writes_record(max_level, denylist, quieter, module),
{
}

/// A filter on a crate holds back every record from the modules of that crate that is more
/// verbose than the filter, and a filter on a module path holds back such records from exactly
/// that module path.
pub proof fn law_filters_hold_back(
    max_level: LevelFilter,
    denylist: Map<Seq<char>, LevelFilter>,
    level: Level,
    path: Seq<char>,
)
    requires
        (denylist.contains_key(crate_name(path)) && !denylist[crate_name(path)].permits(level))
            || (denylist.contains_key(path) && !denylist[path].permits(level)),
    ensures
        !writes_record(max_level, denylist, level, Some(path)),
{
}

/// Without filters, a record is written exactly when its level passes the maximum level.
pub proof fn law_unfiltered_records(
    max_level: LevelFilter,
    level: Level,
    module: Option<Seq<char>>,
)
    ensures
        writes_record(max_level, Map::empty(), level, module) == max_level.permits(level),
{
}

/// Each filter other than `Off` lets through exactly the levels up to the level of the same
/// name, and `Off` lets nothing through.
pub proof fn law_filters_match_levels(level: Level)
    ensures
        LevelFilter::Error.rank() == Level::Error.rank(),
        LevelFilter::Warn.rank() == Level::Warn.rank(),
        LevelFilter::Info.rank() == Level::Info.rank(),
        LevelFilter::Debug.rank() == Level::Debug.rank(),
        LevelFilter::Trace.rank() == Level::Trace.rank(),
        !LevelFilter::Off.permits(level),
        LevelFilter::Trace.permits(level),
{
}

/// The levels are strictly ordered by verbosity, from `Error` to `Trace`, so each filter holds
/// back every level more verbose than its own.
pub proof fn law_levels_strictly_ordered()
    ensures
        Level::Error.rank() < Level::Warn.rank(),
        Level::Warn.rank() < Level::Info.rank(),
        Level::Info.rank() < Level::Debug.rank(),
        Level::Debug.rank() < Level::Trace.rank(),
        !LevelFilter::Error.permits(Level::Warn),
        !LevelFilter::Warn.permits(Level::Info),
        !LevelFilter::Info.permits(Level::Debug),
        !LevelFilter::Debug.permits(Level::Trace),
        LevelFilter::Error.permits(Level::Error),
        LevelFilter::Warn.permits(Level::Warn),
        LevelFilter::Info.permits(Level::Info),
        LevelFilter::Debug.permits(Level::Debug),
{
}

/// A record is written exactly when its level passes the maximum level and, for a record with a
/// module path, the filter of its crate name and the filter of its whole module path, where
/// there are such filters. Filters only take records away: no filter lets through a record
/// that the maximum level holds back.
pub proof fn law_written_records(
    max_level: LevelFilter,
    denylist: Map<Seq<char>, LevelFilter>,
    level: Level,
    module: Option<Seq<char>>,
)
    ensures
        writes_record(max_level, denylist, level, module) ==> max_level.permits(level),
        module is None ==> (writes_record(max_level, denylist, level, module)
            == max_level.permits(level)),
        module is Some ==> (writes_record(max_level, denylist, level, module) == (
        max_level.permits(level) && (denylist.contains_key(crate_name(module->0))
            ==> denylist[crate_name(module->0)].permits(level)) && (denylist.contains_key(
            module->0,
        ) ==> denylist[module->0].permits(level)))),
{
}

/// A release build shows the module path exactly when it is always shown; a debug build shows
/// it when it is always shown or shown in debug builds.
pub proof fn law_module_path_display(settings: LoggerSettings)
    ensures
        settings.shows_module_path(BuildProfile::Release) == settings.always_show_module_path,
        settings.shows_module_path(BuildProfile::Debug) == (settings.always_show_module_path
            || settings.show_module_path_debug),
{
}

/// A new builder has no filters and no output target; it writes at most `Debug` records in
/// debug builds and at most `Warn` records in release builds, showing the module path in debug
/// builds only; and it writes every record that passes that maximum level.
pub proof fn law_new_builder(profile: BuildProfile, level: Level, module: Option<Seq<char>>)
    ensures
        LoggerSettings::initial().module_denylist == Map::<Seq<char>, LevelFilter>::empty(),
        LoggerSettings::initial().output_target is None,
        LoggerSettings::initial().max_level(BuildProfile::Debug) == LevelFilter::Debug,
        LoggerSettings::initial().max_level(BuildProfile::Release) == LevelFilter::Warn,
        LoggerSettings::initial().shows_module_path(BuildProfile::Debug),
        !LoggerSettings::initial().shows_module_path(BuildProfile::Release),
        writes_record(
            LoggerSettings::initial().max_level(profile),
            LoggerSettings::initial().module_denylist,
            level,
            module,
        ) == LoggerSettings::initial().max_level(profile).permits(level),
{
}

} // verus!
