//! The settings a built logger runs with, and which records it writes.

use crate::builder::OutputTarget;
use crate::filter::ModuleDenylist;
use crate::level::{Level, LevelFilter};
use vstd::prelude::*;

verus! {

/// The settings of an installed logger.
#[derive(Debug)]
pub struct LoggerConfig {
    /// The maximum level of the records that are written.
    pub max_level: LevelFilter,
    /// Whether the module path is shown for records of every level.
    pub show_module_path: bool,
    /// The explicitly chosen output target. Without one, the target is chosen from the
    /// environment when the logger is installed.
    pub output_target: Option<OutputTarget>,
    /// The level filters of crates and module paths.
    pub module_denylist: ModuleDenylist,
}

/// Whether a `::` separator starts at index `i` of the module path `path`.
pub open spec fn is_separator_at(path: Seq<char>, i: int) -> bool {
    0 <= i && i + 1 < path.len() && path[i] == ':' && path[i + 1] == ':'
}

/// Whether the crate name of `path` ends at `n`: at the first `::`, or at the end of a path
/// that has none.
pub open spec fn is_crate_name_end(path: Seq<char>, n: int) -> bool {
    &&& 0 <= n <= path.len()
    &&& forall|j: int| 0 <= j < n ==> !is_separator_at(path, j)
    &&& (n == path.len() || is_separator_at(path, n))
}

/// The crate name of a module path: the part before the first `::`.
pub open spec fn crate_name(path: Seq<char>) -> Seq<char> {
    path.take(choose|n: int| is_crate_name_end(path, n))
}

/// Whether a filter for `name` in `denylist` holds back a record at `level`.
pub open spec fn holds_back(denylist: Map<Seq<char>, LevelFilter>, name: Seq<char>, level: Level) -> bool {
    denylist.contains_key(name) && !denylist[name].permits(level)
}

/// Whether a logger with these settings writes a record at `level` from the module path
/// `module`, if the record has one: the level must pass the maximum level, and neither the
/// crate name nor the whole module path may be filtered below the level.
pub open spec fn writes_record(
    max_level: LevelFilter,
    denylist: Map<Seq<char>, LevelFilter>,
    level: Level,
    module: Option<Seq<char>>,
) -> bool {
    &&& max_level.permits(level)
    &&& match module {
        Some(path) => !holds_back(denylist, crate_name(path), level) && !holds_back(
            denylist,
            path,
            level,
        ),
        None => true,
    }
}

/// The crate name ends at exactly one index.
proof fn lemma_crate_name_end_unique(path: Seq<char>, n: int, m: int)
    requires
        is_crate_name_end(path, n),
        is_crate_name_end(path, m),
    ensures
        n == m,
{
    if n < m {
        assert(!is_separator_at(path, n));
    } else if m < n {
        assert(!is_separator_at(path, m));
    }
}

/// The crate name of a module path: the part before the first `::`, or the whole path if it
/// has none.
pub fn crate_name_of(module: &str) -> (name: &str)
    ensures
        name@ == crate_name(module@),
{
    let len = module.unicode_len();
    let mut i: usize = 0;
    while i < len
        invariant
            len == module@.len(),
            0 <= i <= len,
            forall|j: int| 0 <= j < i ==> !is_separator_at(module@, j),
        decreases len - i,
    {
        if i + 1 < len && module.get_char(i) == ':' && module.get_char(i + 1) == ':' {
            proof {
                assert(is_crate_name_end(module@, i as int));
                let c = choose|n: int| is_crate_name_end(module@, n);
                lemma_crate_name_end_unique(module@, c, i as int);
            }
            return module.substring_char(0, i);
        }
        i = i + 1;
    }
    proof {
        assert(is_crate_name_end(module@, len as int));
        let c = choose|n: int| is_crate_name_end(module@, n);
        lemma_crate_name_end_unique(module@, c, len as int);
        assert(module@.take(len as int) =~= module@);
    }
    module
}

impl LoggerConfig {
    /// Whether this logger writes a record at `level` from `module`.
    pub open spec fn spec_writes(&self, level: Level, module: Option<Seq<char>>) -> bool {
        writes_record(self.max_level, self.module_denylist@, level, module)
    }

    /// Whether a record at `level` from the module path `module`, if it has one, is written.
    pub fn enabled(&self, level: Level, module: Option<&str>) -> (b: bool)
        ensures
            b == self.spec_writes(
                level,
                match module {
                    Some(m) => Some(m@),
                    None => None,
                },
            ),
    {
        if !self.max_level.allows(level) {
            return false;
        }
        match module {
            None => true,
            Some(path) => {
                let crate_filter = self.module_denylist.get(crate_name_of(path));
                let crate_allows = match crate_filter {
                    Some(filter) => filter.allows(level),
                    None => true,
                };
                let module_filter = self.module_denylist.get(path);
                let module_allows = match module_filter {
                    Some(filter) => filter.allows(level),
                    None => true,
                };
                crate_allows && module_allows
            },
        }
    }

    /// Whether the module path is shown for a record at `level`: always when so configured,
    /// and otherwise for the `Debug` and `Trace` levels.
    pub fn shows_module_path(&self, level: Level) -> (b: bool)
        ensures
            b == (self.show_module_path || level.rank() >= Level::Debug.rank()),
    {
        self.show_module_path || level.verbosity() >= 4
    }
}

} // verus!
