//! An ordered routing table: the first route whose prefix the path starts
//! with wins.

use vstd::prelude::*;
use crate::text::starts_with;

verus! {

/// One line of a routing table: paths that begin with `prefix` go to `target`.
#[derive(Debug)]
pub struct Route<T> {
    pub prefix: String,
    pub target: T,
}

impl<T> Route<T> {
    /// Does this route cover `path`?
    pub open spec fn covers(&self, path: Seq<char>) -> bool {
        self.prefix@.is_prefix_of(path)
    }
}

/// `at` is the position of the first route of `table` that covers `path`.
pub open spec fn is_first_match<T>(table: Seq<Route<T>>, path: Seq<char>, at: int) -> bool {
    &&& 0 <= at < table.len()
    &&& table[at].covers(path)
    &&& forall|earlier: int| 0 <= earlier < at ==> !(#[trigger] table[earlier]).covers(path)
}

/// No route of `table` covers `path`.
pub open spec fn no_match<T>(table: Seq<Route<T>>, path: Seq<char>) -> bool {
    forall|at: int| 0 <= at < table.len() ==> !(#[trigger] table[at]).covers(path)
}

/// Looks `path` up in `table`, first match wins. Returns the position of the
/// winning route, or `None` when no route covers the path.
pub fn first_match<T>(table: &Vec<Route<T>>, path: &str) -> (hit: Option<usize>)
    ensures
        match hit {
            Some(at) => is_first_match(table@, path@, at as int),
            None => no_match(table@, path@),
        },
{
    let mut at: usize = 0;
    while at < table.len()
        invariant
            at <= table.len(),
            forall|earlier: int| 0 <= earlier < at ==> !(#[trigger] table@[earlier]).covers(path@),
        decreases table.len() - at,
    {
        if starts_with(path, table[at].prefix.as_str()) {
            return Some(at);
        }
        at = at + 1;
    }
    None
}

} // verus!
