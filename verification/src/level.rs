//! Verbosity levels and their names.

use vstd::prelude::*;
use crate::text::same_text;

verus! {

/// Threshold below which records are discarded, from most to least verbose.
#[derive(Clone, Copy, Debug, PartialEq, Eq, Structural)]
pub enum Level {
    Debug,
    Info,
    Warn,
    Error,
}

/// The level that a name selects: the four lower-case names select their
/// level, and every other text selects [`Level::Debug`].
pub open spec fn level_of(name: Seq<char>) -> Level {
    if name == "info"@ {
        Level::Info
    } else if name == "warn"@ {
        Level::Warn
    } else if name == "error"@ {
        Level::Error
    } else {
        Level::Debug
    }
}

impl Level {
    /// Looks a level up by its name. The match is exact and case-sensitive;
    /// an unknown name is not an error and yields [`Level::Debug`].
    pub fn parse(name: &str) -> (level: Level)
        ensures
            level == level_of(name@),
    {
        if same_text(name, "info") {
            Level::Info
        } else if same_text(name, "warn") {
            Level::Warn
        } else if same_text(name, "error") {
            Level::Error
        } else {
            Level::Debug
        }
    }
}

/// The four names select their own level, and every other text selects
/// [`Level::Debug`]: the empty text, and the four names in any other
/// spelling or case.
pub proof fn law_level_names(name: Seq<char>)
    ensures
        name == "debug"@ ==> level_of(name) == Level::Debug,
        name == "info"@ ==> level_of(name) == Level::Info,
        name == "warn"@ ==> level_of(name) == Level::Warn,
        name == "error"@ ==> level_of(name) == Level::Error,
        name != "info"@ && name != "warn"@ && name != "error"@ ==> level_of(name)
            == Level::Debug,
{
    reveal_strlit("debug");
    reveal_strlit("info");
    reveal_strlit("warn");
    reveal_strlit("error");
    assert("debug"@.len() == 5 && "error"@.len() == 5);
    assert("info"@.len() == 4 && "warn"@.len() == 4);
    assert("debug"@[0] != "error"@[0]);
    assert("warn"@[0] != "info"@[0]);
}

} // verus!
