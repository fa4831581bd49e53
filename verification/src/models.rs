//! Stored script documents.

use vstd::prelude::*;

verus! {

/// A named script document: the source text a user edits, stored under a
/// title so it can be fetched again and fed to the engine as a source
/// update.
#[derive(Debug, PartialEq, Eq)]
pub struct Whim {
    pub title: String,
    pub body: String,
}

/// The source text to serve for a fetched document: the body of the most
/// recently stored match, or nothing when no row matched.
pub fn last_body(rows: Vec<Whim>) -> (r: Option<String>)
    ensures
        rows@.len() == 0 ==> r == None::<String>,
        rows@.len() > 0 ==> r == Some(rows@.last().body),
{
    let mut rows = rows;
    match rows.pop() {
        Some(w) => Some(w.body),
        None => None,
    }
}

} // verus!
