//! Requests for the native file chooser: the interaction mode, the starting
//! directory, and the rendered filename filter.

use vstd::prelude::*;
use vstd::string::StringExecFns;

use crate::outcome::{FailureReason, PickerResult};

verus! {

/// Which interaction a file chooser performs.
#[derive(Clone, Copy, Debug, PartialEq, Eq, Structural)]
pub enum DialogMode {
    /// Choose an existing file to load.
    Open,
    /// Choose a path to write to.
    Save,
}

/// The labelled glob patterns of a filter list, as character sequences.
pub open spec fn pairs_view(pairs: Seq<(String, String)>) -> Seq<(Seq<char>, Seq<char>)> {
    pairs.map_values(|p: (String, String)| (p.0@, p.1@))
}

/// One filter entry rendered as `label(pattern)`.
pub open spec fn entry_spec(pair: (Seq<char>, Seq<char>)) -> Seq<char> {
    pair.0 + "("@ + pair.1 + ")"@
}

/// The filter text for a list of (label, pattern) pairs: the rendered
/// entries joined by `|`.
pub open spec fn filter_string_spec(pairs: Seq<(Seq<char>, Seq<char>)>) -> Seq<char>
    decreases pairs.len(),
{
    if pairs.len() == 0 {
        Seq::empty()
    } else if pairs.len() == 1 {
        entry_spec(pairs[0])
    } else {
        filter_string_spec(pairs.drop_last()) + "|"@ + entry_spec(pairs.last())
    }
}

/// Renders a filter list as the chooser's filter text.
pub fn filter_string(pairs: &Vec<(String, String)>) -> (r: String)
    ensures
        r@ == filter_string_spec(pairs_view(pairs@)),
{
    let mut r = String::new();
    let mut i: usize = 0;
    proof {
        assert(pairs_view(pairs@).subrange(0, 0) =~= Seq::<(Seq<char>, Seq<char>)>::empty());
    }
    while i < pairs.len()
        invariant
            i <= pairs@.len(),
            r@ == filter_string_spec(pairs_view(pairs@).subrange(0, i as int)),
        decreases pairs@.len() - i,
    {
        if i > 0 {
            r.append("|");
        }
        let (label, pattern) = &pairs[i];
        r.append(label.as_str());
        r.append("(");
        r.append(pattern.as_str());
        r.append(")");
        proof {
            let pv = pairs_view(pairs@);
            let prefix = pv.subrange(0, i as int + 1);
            assert(prefix.last() == pv[i as int]);
            assert(prefix.drop_last() =~= pv.subrange(0, i as int));
            assert(r@ =~= filter_string_spec(prefix));
        }
        i = i + 1;
    }
    proof {
        assert(pairs_view(pairs@).subrange(0, pairs@.len() as int) =~= pairs_view(pairs@));
    }
    r
}

/// The built-in filter list: text files first, then any file.
pub open spec fn default_filters_spec() -> Seq<(Seq<char>, Seq<char>)> {
    seq![("Text"@, "*.txt"@), ("Any"@, "*.*"@)]
}

/// Builds the built-in filter list.
pub fn default_filters() -> (r: Vec<(String, String)>)
    ensures
        pairs_view(r@) == default_filters_spec(),
{
    let mut v: Vec<(String, String)> = Vec::new();
    v.push(("Text".to_owned(), "*.txt".to_owned()));
    v.push(("Any".to_owned(), "*.*".to_owned()));
    proof {
        assert(pairs_view(v@) =~= default_filters_spec());
    }
    v
}

/// One request to present a native file chooser, handed to the edge of
/// the program that owns the windowing system.
pub struct DialogRequest {
    /// Which interaction to perform.
    pub mode: DialogMode,
    /// The directory the chooser starts in.
    pub start_dir: String,
    /// The rendered filename filter.
    pub filter: String,
}

/// The outcome of one modal chooser interaction: a chooser that could not
/// be built fails; one the user dismissed is a cancellation, not an error;
/// a confirmed selection whose path cannot be read back fails; and only
/// the remaining case yields a chosen path.
pub open spec fn picker_outcome_spec(
    constructed: bool,
    confirmed: bool,
    retrieved: Option<String>,
) -> PickerResult {
    if !constructed {
        PickerResult::Failed(FailureReason::DialogConstruction)
    } else if !confirmed {
        PickerResult::Cancelled
    } else {
        match retrieved {
            Some(path) => PickerResult::Chosen(path),
            None => PickerResult::Failed(FailureReason::PathRetrieval),
        }
    }
}

/// Reduces what the native chooser did to a `PickerResult`: `constructed`
/// says the chooser could be built, `confirmed` that the user confirmed a
/// selection rather than dismissing it, and `retrieved` the chosen path,
/// if it could be read back.
pub fn picker_outcome(constructed: bool, confirmed: bool, retrieved: Option<String>) -> (r:
    PickerResult)
    ensures
        r == picker_outcome_spec(constructed, confirmed, retrieved),
{
    if !constructed {
        PickerResult::Failed(FailureReason::DialogConstruction)
    } else if !confirmed {
        PickerResult::Cancelled
    } else {
        match retrieved {
            Some(path) => PickerResult::Chosen(path),
            None => PickerResult::Failed(FailureReason::PathRetrieval),
        }
    }
}

/// The chooser request for `mode`, starting in `start_dir`, with the
/// built-in filters.
pub fn make_request(mode: DialogMode, start_dir: String) -> (r: DialogRequest)
    ensures
        r.mode == mode,
        r.start_dir@ == start_dir@,
        r.filter@ == filter_string_spec(default_filters_spec()),
{
    let filters = default_filters();
    let filter = filter_string(&filters);
    DialogRequest { mode: mode, start_dir: start_dir, filter: filter }
}

} // verus!
