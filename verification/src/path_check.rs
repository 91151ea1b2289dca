//! The compiled path predicate and the composed per-entry filter.

use crate::flags::Flags;
use crate::pattern::build_regex;
use crate::pattern::regex_is_match;
use crate::pattern::regex_lang;
use crate::pattern::regex_match_of;
use crate::size::SizeComparison;
use crate::text::is_substring_of;
use crate::text::lower_of;
use crate::text::str_contains;
use crate::text::to_lowercase;
use vstd::prelude::*;

verus! {

/// The path-matching predicate: exactly one variant is selected from
/// the flags at startup and never changes for the life of the scan.
pub enum PathCheck {
    /// Every path matches.
    Allow,
    /// The path's text matches the compiled pattern somewhere.
    CheckRegex(regex::Regex),
    /// The path's text contains the query verbatim.
    CheckStr(String),
    /// The path's text, lowercased, contains the lowercased query.
    CheckCaseInsensitiveStr(String),
}

impl PathCheck {
    /// Whether the predicate accepts a path with the given text.
    pub open spec fn accepts(self, path: Seq<char>) -> bool {
        match self {
            PathCheck::Allow => true,
            PathCheck::CheckRegex(re) => regex_match_of(re, path),
            PathCheck::CheckStr(q) => is_substring_of(q@, path),
            PathCheck::CheckCaseInsensitiveStr(q) => is_substring_of(
                lower_of(q@),
                lower_of(path),
            ),
        }
    }

    /// The decision table from query flags to predicate variant: no
    /// query or the literal `"."` query accept everything; a regex
    /// query matches per the compiled pattern; otherwise the query is
    /// a substring test, case-folded when asked.
    pub open spec fn compiled_from(
        self,
        query: Option<Seq<char>>,
        regex_mode: bool,
        case_insensitive: bool,
    ) -> bool {
        match query {
            None => self is Allow,
            Some(q) => if regex_mode {
                self matches PathCheck::CheckRegex(re) && forall|t: Seq<char>|
                    #[trigger] regex_match_of(re, t) == regex_lang(q, case_insensitive, t)
            } else if q == seq!['.'] {
                self is Allow
            } else if case_insensitive {
                self matches PathCheck::CheckCaseInsensitiveStr(s) && s@ == q
            } else {
                self matches PathCheck::CheckStr(s) && s@ == q
            },
        }
    }

    /// Decide whether the path text matches.
    pub fn check(&self, path: &str) -> (r: bool)
        ensures
            r == self.accepts(path@),
    {
        match self {
            PathCheck::Allow => true,
            PathCheck::CheckRegex(re) => regex_is_match(re, path),
            PathCheck::CheckStr(query) => str_contains(path, query.as_str()),
            PathCheck::CheckCaseInsensitiveStr(query) => {
                let folded_path = to_lowercase(path);
                let folded_query = to_lowercase(query.as_str());
                str_contains(folded_path.as_str(), folded_query.as_str())
            },
        }
    }

    /// Compile the predicate the flags select. Fails only when the
    /// query is an invalid pattern in regex mode.
    pub fn new(flags: &Flags) -> (r: Result<PathCheck, regex::Error>)
        ensures
            r matches Ok(pc) ==> pc.compiled_from(
                flags.spec_query(),
                flags.regex,
                flags.case_insensitive,
            ),
            flags.query is None || !flags.regex ==> r is Ok,
            r is Err ==> flags.query is Some && flags.regex,
    {
        match &flags.query {
            None => Ok(PathCheck::Allow),
            Some(query) => {
                if flags.regex {
                    match build_regex(query.as_str(), flags.case_insensitive) {
                        Ok(re) => Ok(PathCheck::CheckRegex(re)),
                        Err(e) => Err(e),
                    }
                } else {
                    if is_dot(query.as_str()) {
                        Ok(PathCheck::Allow)
                    } else if flags.case_insensitive {
                        Ok(PathCheck::CheckCaseInsensitiveStr(query.clone()))
                    } else {
                        Ok(PathCheck::CheckStr(query.clone()))
                    }
                }
            },
        }
    }
}

/// Law: a predicate compiled without a query, or from the literal `"."`
/// query outside regex mode, accepts every path.
pub proof fn lemma_accept_all(
    pc: PathCheck,
    query: Option<Seq<char>>,
    regex_mode: bool,
    case_insensitive: bool,
    path: Seq<char>,
)
    requires
        pc.compiled_from(query, regex_mode, case_insensitive),
        query is None || (!regex_mode && query == Some(seq!['.'])),
    ensures
        pc.accepts(path),
{
}

/// Law: a predicate compiled from a plain query accepts exactly the
/// paths whose text contains the query verbatim.
pub proof fn lemma_exact_substring(pc: PathCheck, q: Seq<char>, path: Seq<char>)
    requires
        pc.compiled_from(Some(q), false, false),
        q != seq!['.'],
    ensures
        pc.accepts(path) == is_substring_of(q, path),
{
}

/// Law: a predicate compiled from a plain query with case folding
/// accepts exactly the paths whose lowercased text contains the
/// lowercased query.
pub proof fn lemma_case_insensitive_substring(pc: PathCheck, q: Seq<char>, path: Seq<char>)
    requires
        pc.compiled_from(Some(q), false, true),
        q != seq!['.'],
    ensures
        pc.accepts(path) == is_substring_of(lower_of(q), lower_of(path)),
{
}

/// Law: a predicate compiled from a query in regex mode accepts exactly
/// the paths the compiled pattern matches somewhere within, under the
/// case-insensitivity flag it was built with.
pub proof fn lemma_regex_matches_pattern(
    pc: PathCheck,
    q: Seq<char>,
    case_insensitive: bool,
    path: Seq<char>,
)
    requires
        pc.compiled_from(Some(q), true, case_insensitive),
    ensures
        pc.accepts(path) == regex_lang(q, case_insensitive, path),
{
}

/// Whether the text is the single character `.`.
fn is_dot(q: &str) -> (r: bool)
    ensures
        r == (q@ == seq!['.']),
{
    let len = q.unicode_len();
    if len == 1 {
        let c = q.get_char(0);
        proof {
            if c == '.' {
                assert(q@ =~= seq!['.']);
            }
        }
        c == '.'
    } else {
        false
    }
}

/// The composed per-entry filter: the path predicate and the optional
/// size comparison, built once and shared read-only by every worker.
pub struct Check {
    /// The compiled path predicate.
    pub path_check: PathCheck,
    /// The size comparison, when one was configured.
    pub size: Option<SizeComparison>,
}

impl Check {
    /// Every configured part is within `u64` range for evaluation.
    pub open spec fn wf(self) -> bool {
        match self.size {
            Some(sc) => sc.in_range(),
            None => true,
        }
    }

    /// The per-entry decision: the path predicate must accept the
    /// path's text, and, when a size comparison is configured, the
    /// entry's length must be known and satisfy it; an entry whose
    /// length is unavailable fails closed.
    pub open spec fn accepts(self, path: Seq<char>, len: Option<u64>) -> bool {
        &&& self.path_check.accepts(path)
        &&& match self.size {
            None => true,
            Some(sc) => match len {
                Some(n) => sc.satisfied_by(n),
                None => false,
            },
        }
    }

    /// Decide whether one discovered entry matches. Pure in its
    /// arguments, so any number of workers may share the filter.
    pub fn check(&self, path: &str, len: Option<u64>) -> (r: bool)
        requires
            self.wf(),
        ensures
            r == self.accepts(path@, len),
    {
        match (&self.size, len) {
            (Some(sc), Some(n)) => self.path_check.check(path) && sc.check(n),
            (Some(_), None) => false,
            (None, _) => self.path_check.check(path),
        }
    }

    /// Compose the filter from the flags. Fails only when the query is
    /// an invalid pattern in regex mode.
    pub fn new(flags: &Flags) -> (r: Result<Check, regex::Error>)
        ensures
            r matches Ok(c) ==> {
                &&& c.path_check.compiled_from(
                    flags.spec_query(),
                    flags.regex,
                    flags.case_insensitive,
                )
                &&& c.size == flags.size
            },
            flags.query is None || !flags.regex ==> r is Ok,
            r is Err ==> flags.query is Some && flags.regex,
    {
        match PathCheck::new(flags) {
            Ok(pc) => Ok(Check { path_check: pc, size: flags.size }),
            Err(e) => Err(e),
        }
    }
}

} // verus!
