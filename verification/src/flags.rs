//! The validated configuration snapshot for one scan, and the traversal
//! policy it selects for the directory walker.

use crate::size::SizeComparison;
use vstd::prelude::*;

verus! {

/// The immutable query flags, validated before any traversal begins.
#[derive(Debug)]
pub struct Flags {
    /// Pattern or substring to match against path text.
    pub query: Option<String>,
    /// Disable ignore-rule filtering and reveal hidden entries.
    pub all: bool,
    /// Interpret the query as a regular expression.
    pub regex: bool,
    /// Reveal hidden entries; ignore rules still apply.
    pub hidden: bool,
    /// Case-fold matching, for both substring and regex modes.
    pub case_insensitive: bool,
    /// Optional size comparison an entry's length must satisfy.
    pub size: Option<SizeComparison>,
    /// Maximum traversal depth below the root; `None` is unbounded.
    pub depth: Option<usize>,
}

/// The traversal policy handed to the directory walker.
#[derive(Clone, Copy, Debug)]
pub struct WalkPolicy {
    /// Whether ignore-file exclusion rules are enforced.
    pub use_ignore_rules: bool,
    /// Whether hidden entries (names starting with `.`) are visited.
    pub show_hidden: bool,
    /// Bound on traversal depth below the root; `None` is unbounded.
    pub max_depth: Option<usize>,
    /// The number of workers in the traversal pool.
    pub threads: usize,
}

impl Flags {
    /// The query text, as a character sequence.
    pub open spec fn spec_query(self) -> Option<Seq<char>> {
        match self.query {
            None => None,
            Some(q) => Some(q@),
        }
    }

    /// The traversal policy these flags select: `all` lifts both the
    /// ignore rules and the hidden-entry exclusion, `hidden` lifts only
    /// the latter, `depth` bounds the walk, and the pool has 20 workers.
    pub fn walk_policy(&self) -> (p: WalkPolicy)
        ensures
            p.use_ignore_rules == !self.all,
            p.show_hidden == (self.all || self.hidden),
            p.max_depth == self.depth,
            p.threads == 20,
    {
        WalkPolicy {
            use_ignore_rules: !self.all,
            show_hidden: self.all || self.hidden,
            max_depth: self.depth,
            threads: 20,
        }
    }
}

} // verus!
