//! The status and error texts that the application shows.
use vstd::prelude::*;
use crate::text::{decimal, push_decimal};

verus! {

/// `a` followed by `b`.
pub fn join2(a: &str, b: &str) -> (r: String)
    ensures
        r@ == a@ + b@,
{
    let mut r = String::from_str(a);
    r.append(b);
    r
}

/// `a`, `b` and `c` one after the other.
pub fn join3(a: &str, b: &str, c: &str) -> (r: String)
    ensures
        r@ == a@ + b@ + c@,
{
    let mut r = String::from_str(a);
    r.append(b);
    r.append(c);
    r
}

/// `a`, then `n` in decimal, then `b`.
pub fn with_number(a: &str, n: u64, b: &str) -> (r: String)
    ensures
        r@ == a@ + decimal(n as nat) + b@,
{
    let mut r = String::from_str(a);
    push_decimal(&mut r, n);
    r.append(b);
    r
}

/// `n` in decimal, then `b`.
pub fn number_then(n: u64, b: &str) -> (r: String)
    ensures
        r@ == decimal(n as nat) + b@,
{
    let mut r = String::new();
    push_decimal(&mut r, n);
    r.append(b);
    r
}

/// The status that reports how many sites are marked.
pub open spec fn marked_count_text(n: nat) -> Seq<char> {
    decimal(n) + " Site(s) selected"@
}

/// The status while something loads.
pub open spec fn loading_text(what: Seq<char>) -> Seq<char> {
    "Loading "@ + what + "\u{2026}"@
}

/// The status while the 30-day analytics of a site load.
pub open spec fn loading_analytics_text(slug: Seq<char>) -> Seq<char> {
    "Loading 30-day analytics for "@ + slug + "\u{2026}"@
}

/// The status while a site is duplicated.
pub open spec fn duplicating_text(slug: Seq<char>) -> Seq<char> {
    "Duplicating "@ + slug + "\u{2026}"@
}

/// The status while a search runs.
pub open spec fn searching_text(query: Seq<char>) -> Seq<char> {
    "Searching for "@ + query + "\u{2026}"@
}

/// The status while a site is renamed.
pub open spec fn updating_text(slug: Seq<char>) -> Seq<char> {
    "Updating "@ + slug + "\u{2026}"@
}

/// The counts that a refresh reports.
pub open spec fn counts_text(sites: nat, drives: nat) -> Seq<char> {
    decimal(sites) + " Sites \u{b7} "@ + decimal(drives) + " Drives"@
}

/// The status after a refresh that loaded the selected site's files.
pub open spec fn refreshed_detail_text(sites: nat, drives: nat, files: nat, slug: Seq<char>) -> Seq<char> {
    counts_text(sites, drives) + " \u{b7} "@ + decimal(files) + " files in "@ + slug
}

/// The status after a search.
pub open spec fn matches_text(n: nat, query: Seq<char>) -> Seq<char> {
    decimal(n) + " matches for \u{201c}"@ + query + "\u{201d} \u{b7} r clears"@
}

/// The status after a site's files loaded.
pub open spec fn detail_loaded_text(files: nat) -> Seq<char> {
    decimal(files) + " files \u{b7} Enter refreshes detail"@
}

/// The status after a Drive's files loaded.
pub open spec fn drive_loaded_text(name: Seq<char>, files: nat) -> Seq<char> {
    name + " \u{b7} "@ + decimal(files) + " files"@
}

/// The status while one site of a batch is deleted.
pub open spec fn deleting_text(slug: Seq<char>, position: nat, total: nat) -> Seq<char> {
    "Deleting "@ + slug + "\u{2026} ("@ + decimal(position) + "/"@ + decimal(total) + ")"@
}

/// `items` separated by `sep`.
pub open spec fn joined(items: Seq<Seq<char>>, sep: Seq<char>) -> Seq<char>
    decreases items.len(),
{
    if items.len() == 0 {
        Seq::empty()
    } else if items.len() == 1 {
        items[0]
    } else {
        joined(items.drop_last(), sep) + sep + items.last()
    }
}

/// `items` separated by `sep` (`items.join(sep)`).
pub fn join_all(items: &Vec<String>, sep: &str) -> (r: String)
    ensures
        r@ == joined(items@.map_values(|s: String| s@), sep@),
{
    let ghost views = items@.map_values(|s: String| s@);
    let mut r = String::new();
    let n = items.len();
    assert(views.take(0) =~= Seq::<Seq<char>>::empty());
    for i in 0..n
        invariant
            n == items@.len(),
            views == items@.map_values(|s: String| s@),
            r@ == joined(views.take(i as int), sep@),
    {
        if i > 0 {
            r.append(sep);
        }
        r.append(items[i].as_str());
        assert(views.take(i + 1).drop_last() =~= views.take(i as int));
        if i == 0 {
            assert(views.take(0) =~= Seq::<Seq<char>>::empty());
        }
    }
    assert(views.take(n as int) =~= views);
    r
}

} // verus!
