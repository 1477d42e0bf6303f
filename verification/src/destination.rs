//! Where log records go: the console, or rotated files in a directory.

use vstd::prelude::*;
use crate::text::{lowercase, same_text_lowered};

verus! {

/// The sink that a destination text selects.
#[derive(Clone, Debug, PartialEq, Eq)]
pub enum Destination {
    /// Standard output.
    Console,
    /// Rotated files inside the directory at this path.
    Directory(String),
}

/// The mathematical form of a [`Destination`].
pub enum DestinationView {
    Console,
    Directory(Seq<char>),
}

impl View for Destination {
    type V = DestinationView;

    open spec fn view(&self) -> DestinationView {
        match self {
            Destination::Console => DestinationView::Console,
            Destination::Directory(path) => DestinationView::Directory(path@),
        }
    }
}

/// Whether a destination text names the console: it does when its ASCII
/// lower-case form is `stdout`.
pub open spec fn names_console(logs: Seq<char>) -> bool {
    lowercase(logs) == "stdout"@
}

/// The destination that a text selects: the console for a text that
/// [`names_console`], and otherwise the directory whose path is the text,
/// character for character.
pub open spec fn destination_of(logs: Seq<char>) -> DestinationView {
    if names_console(logs) {
        DestinationView::Console
    } else {
        DestinationView::Directory(logs)
    }
}

impl Destination {
    /// Decides where records go from the destination text.
    pub fn resolve(logs: &str) -> (destination: Destination)
        ensures
            destination@ == destination_of(logs@),
    {
        if same_text_lowered(logs, "stdout") {
            Destination::Console
        } else {
            Destination::Directory(logs.to_owned())
        }
    }

    /// Whether records go to standard output.
    pub fn is_console(&self) -> (console: bool)
        ensures
            console == (self@ is Console),
    {
        match self {
            Destination::Console => true,
            Destination::Directory(_) => false,
        }
    }
}

/// A text names the console exactly when it spells `stdout` in six
/// characters, each in either ASCII case.
pub proof fn law_console_spelling(logs: Seq<char>)
    ensures
        names_console(logs) <==> {
            &&& logs.len() == 6
            &&& (logs[0] == 's' || logs[0] == 'S')
            &&& (logs[1] == 't' || logs[1] == 'T')
            &&& (logs[2] == 'd' || logs[2] == 'D')
            &&& (logs[3] == 'o' || logs[3] == 'O')
            &&& (logs[4] == 'u' || logs[4] == 'U')
            &&& (logs[5] == 't' || logs[5] == 'T')
        },
{
    reveal_strlit("stdout");
    let word = "stdout"@;
    let low = lowercase(logs);
    if names_console(logs) {
        assert(low.len() == 6);
        assert(low[0] == word[0]);
        assert(low[1] == word[1]);
        assert(low[2] == word[2]);
        assert(low[3] == word[3]);
        assert(low[4] == word[4]);
        assert(low[5] == word[5]);
    } else if logs.len() == 6 {
        if low[0] == word[0] && low[1] == word[1] && low[2] == word[2] && low[3] == word[3]
            && low[4] == word[4] && low[5] == word[5] {
            assert(low =~= word);
        }
    }
}

/// Every text selects exactly one sink: the console when it names it, and
/// otherwise the directory at that very path, the empty path included.
pub proof fn law_destination_routing(logs: Seq<char>)
    ensures
        names_console(logs) ==> destination_of(logs) == DestinationView::Console,
        !names_console(logs) ==> destination_of(logs) == DestinationView::Directory(logs),
{
}

} // verus!
