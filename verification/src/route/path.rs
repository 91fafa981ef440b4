//! The placeholders of a path template.
//!
//! A placeholder is a name between braces, such as `{id}`. The template is
//! scanned with a regular expression; the names it finds decide which
//! parameters of a method travel in the path.

use vstd::prelude::*;
use crate::text::views;

verus! {

/// What a scan with a regular expression finds: for each match of `pattern`
/// in `haystack`, in order, the text of its first group, absent where the
/// group took no part in the match. `None` where the pattern is rejected.
pub uninterp spec fn first_groups(pattern: Seq<char>, haystack: Seq<char>) -> Option<
    Seq<Option<Seq<char>>>,
>;

/// The view of an optional text.
pub open spec fn group_view(group: Option<String>) -> Option<Seq<char>> {
    match group {
        Some(text) => Some(text@),
        None => None,
    }
}

/// The view of the result of a scan.
pub open spec fn scan_view(scan: Option<Vec<Option<String>>>) -> Option<Seq<Option<Seq<char>>>> {
    match scan {
        Some(groups) => Some(groups@.map_values(|g: Option<String>| group_view(g))),
        None => None,
    }
}

/// The view of an optional list of names.
pub open spec fn names_view(names: Option<Vec<String>>) -> Option<Seq<Seq<char>>> {
    match names {
        Some(names) => Some(views(names@)),
        None => None,
    }
}

/// Compiles `pattern` with `regex::Regex::new` and walks
/// `Regex::captures_iter` over `haystack`, taking `Captures::get(1)` of each
/// match as text. The contract claims only that the outcome is a function of
/// the two texts; it is `None` where `Regex::new` returns an error.
#[verifier::external_body]
fn scan_first_groups(pattern: &str, haystack: &str) -> (r: Option<Vec<Option<String>>>)
    ensures
        scan_view(r) == first_groups(pattern@, haystack@),
{
    match regex::Regex::new(pattern) {
        Ok(re) => Some(
            re.captures_iter(haystack).map(|c| c.get(1).map(|m| m.as_str().to_string())).collect(),
        ),
        Err(_) => None,
    }
}

/// The pattern of a placeholder: braces around one or more letters or
/// underscores.
pub open spec fn placeholder_pattern() -> Seq<char> {
    "\\{([[:alpha:]_]+)\\}"@
}

/// The names a scan has found, where the scan succeeded and every match
/// carries its group.
pub open spec fn names_of(scan: Option<Seq<Option<Seq<char>>>>) -> Option<Seq<Seq<char>>> {
    match scan {
        None => None,
        Some(groups) => if forall|i: int| 0 <= i < groups.len() ==> groups[i] is Some {
            Some(groups.map_values(|g: Option<Seq<char>>| g->0))
        } else {
            None
        },
    }
}

/// The names of the placeholders of `template`, in the order of the template.
pub open spec fn placeholder_names(template: Seq<char>) -> Option<Seq<Seq<char>>> {
    names_of(first_groups(placeholder_pattern(), template))
}

/// Turns the result of a scan into the list of names found.
pub fn collect_names(scan: Option<Vec<Option<String>>>) -> (r: Option<Vec<String>>)
    ensures
        names_view(r) == names_of(scan_view(scan)),
{
    match scan {
        None => None,
        Some(groups) => {
            let ghost all = groups@.map_values(|g: Option<String>| group_view(g));
            let mut names: Vec<String> = Vec::new();
            let mut i: usize = 0;
            while i < groups.len()
                invariant
                    i <= groups.len(),
                    names.len() == i,
                    all == groups@.map_values(|g: Option<String>| group_view(g)),
                    scan_view(scan) == Some(all),
                    forall|j: int| 0 <= j < i ==> #[trigger] all[j] == Some(names@[j]@),
                decreases groups.len() - i,
            {
                match &groups[i] {
                    None => {
                        assert(all[i as int] is None);
                        return None;
                    },
                    Some(name) => {
                        names.push(name.clone());
                    },
                }
                i += 1;
            }
            assert(views(names@) =~= all.map_values(|g: Option<Seq<char>>| g->0));
            Some(names)
        },
    }
}

/// Scans a path template for its placeholders.
pub fn scan_template(template: &str) -> (r: Option<Vec<String>>)
    ensures
        names_view(r) == placeholder_names(template@),
{
    collect_names(scan_first_groups("\\{([[:alpha:]_]+)\\}", template))
}

} // verus!
