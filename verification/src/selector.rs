//! Pattern Selector: compiles shell-glob selection patterns and decides, for a
//! relative path, whether any of them selects it.  Matching itself is done by
//! the `glob` crate; its behaviour is named, not restated, so every contract
//! here speaks of `glob_pattern_ok` and `glob_accepts`.

use vstd::prelude::*;

use crate::error::{DomainError, DomainErrorView};

verus! {

#[verifier::external_type_specification]
#[verifier::external_body]
pub struct ExGlobPattern(glob::Pattern);

/// The pattern text a compiled `glob::Pattern` was built from (what
/// `glob::Pattern::as_str` hands back).
pub uninterp spec fn pattern_text(p: glob::Pattern) -> Seq<char>;

/// Whether `glob::Pattern::new` accepts `text` as a syntactically valid
/// shell-glob pattern.
pub uninterp spec fn glob_pattern_ok(text: Seq<char>) -> bool;

/// Whether `path` satisfies shell-glob semantics for the pattern `text`:
/// the result of `glob::Pattern::matches_with` under options that require a
/// literal `/` (so `*`, `?` and character classes do not cross directory
/// separators, while `**` does), a function of the two texts alone.
pub uninterp spec fn glob_accepts(text: Seq<char>, path: Seq<char>) -> bool;

/// Relies on glob::Pattern::new: it returns Ok exactly on syntactically valid
/// patterns, and the compiled pattern prints back as the given text.
#[verifier::external_body]
fn new_pattern(pattern: &str) -> (r: Option<glob::Pattern>)
    ensures
        r is Some <==> glob_pattern_ok(pattern@),
        r matches Some(p) ==> pattern_text(p) == pattern@,
{
    glob::Pattern::new(pattern).ok()
}

/// Relies on glob::Pattern::matches_with, under fixed options requiring path
/// separators to be matched literally: the result is a function of the
/// pattern's text and the matched path alone.
#[verifier::external_body]
fn pattern_matches(p: &glob::Pattern, path: &str) -> (r: bool)
    ensures
        r == glob_accepts(pattern_text(*p), path@),
{
    let options = glob::MatchOptions {
        case_sensitive: true,
        require_literal_separator: true,
        require_literal_leading_dot: false,
    };
    p.matches_with(path, options)
}

/// A path is selected by a pattern set when it matches any of the patterns.
pub open spec fn selects(patterns: Seq<Seq<char>>, path: Seq<char>) -> bool {
    exists|i: int| 0 <= i < patterns.len() && glob_accepts(patterns[i], path)
}

/// All patterns of a set are syntactically valid.
pub open spec fn all_patterns_ok(patterns: Seq<Seq<char>>) -> bool {
    forall|i: int| 0 <= i < patterns.len() ==> glob_pattern_ok(patterns[i])
}

/// The leftmost syntactically invalid pattern of the set; meaningful only
/// when one exists.
pub open spec fn first_invalid(patterns: Seq<Seq<char>>) -> Seq<char>
    decreases patterns.len(),
{
    if patterns.len() == 0 {
        Seq::empty()
    } else if !glob_pattern_ok(patterns[0]) {
        patterns[0]
    } else {
        first_invalid(patterns.subrange(1, patterns.len() as int))
    }
}

/// The error text reported for an invalid pattern, naming the pattern.
pub open spec fn invalid_pattern_message(pattern: Seq<char>) -> Seq<char> {
    "invalid pattern: "@ + pattern
}

proof fn lemma_first_invalid_at(patterns: Seq<Seq<char>>, i: int)
    requires
        0 <= i < patterns.len(),
        !glob_pattern_ok(patterns[i]),
        forall|j: int| 0 <= j < i ==> glob_pattern_ok(patterns[j]),
    ensures
        first_invalid(patterns) == patterns[i],
    decreases patterns.len(),
{
    if i > 0 {
        let rest = patterns.subrange(1, patterns.len() as int);
        assert(!glob_pattern_ok(rest[i - 1]));
        assert forall|j: int| 0 <= j < i - 1 implies glob_pattern_ok(rest[j]) by {
            assert(rest[j] == patterns[j + 1]);
        }
        lemma_first_invalid_at(rest, i - 1);
    }
}

/// A set of compiled selection patterns.  Its abstract value is the sequence
/// of pattern texts it was compiled from.
pub struct CompiledSelector {
    patterns: Vec<glob::Pattern>,
}

impl View for CompiledSelector {
    type V = Seq<Seq<char>>;

    closed spec fn view(&self) -> Seq<Seq<char>> {
        Seq::new(self.patterns@.len(), |i: int| pattern_text(self.patterns@[i]))
    }
}

impl CompiledSelector {
    /// Compiles a pattern set.  Fails exactly when some pattern is invalid.
    pub fn compile(patterns: &Vec<String>) -> (r: Result<CompiledSelector, DomainError>)
        ensures
            r is Ok <==> all_patterns_ok(patterns.deep_view()),
            r matches Ok(s) ==> s@ == patterns.deep_view(),
            r matches Err(e) ==> e@ == DomainErrorView::PathPatternError(
                invalid_pattern_message(first_invalid(patterns.deep_view())),
            ),
    {
        let mut compiled: Vec<glob::Pattern> = Vec::new();
        let mut i: usize = 0;
        while i < patterns.len()
            invariant
                i <= patterns.len(),
                compiled@.len() == i,
                forall|j: int| 0 <= j < i ==> pattern_text(compiled@[j])
                    == patterns.deep_view()[j],
                forall|j: int| 0 <= j < i ==> glob_pattern_ok(patterns.deep_view()[j]),
            decreases patterns.len() - i,
        {
            proof {
                assert(patterns.deep_view()[i as int] == patterns@[i as int]@);
            }
            match new_pattern(patterns[i].as_str()) {
                Some(p) => {
                    compiled.push(p);
                },
                None => {
                    proof {
                        assert(!all_patterns_ok(patterns.deep_view()));
                        lemma_first_invalid_at(patterns.deep_view(), i as int);
                    }
                    let mut m = ("invalid pattern: ").to_owned();
                    m.append(patterns[i].as_str());
                    return Err(DomainError::PathPatternError(m));
                },
            }
            i = i + 1;
        }
        let s = CompiledSelector { patterns: compiled };
        proof {
            assert(s@ =~= patterns.deep_view());
        }
        Ok(s)
    }

    /// Number of patterns in the set.
    pub fn len(&self) -> (r: usize)
        ensures
            r == self@.len(),
    {
        self.patterns.len()
    }

    /// Whether `path` matches any pattern of the set (logical OR; false for an
    /// empty set).
    pub fn matches(&self, path: &str) -> (r: bool)
        ensures
            r == selects(self@, path@),
    {
        let mut i: usize = 0;
        while i < self.patterns.len()
            invariant
                i <= self.patterns@.len(),
                forall|j: int| 0 <= j < i ==> !glob_accepts(self@[j], path@),
            decreases self.patterns@.len() - i,
        {
            if pattern_matches(&self.patterns[i], path) {
                proof {
                    assert(self@[i as int] == pattern_text(self.patterns@[i as int]));
                    assert(selects(self@, path@));
                }
                return true;
            }
            i = i + 1;
        }
        false
    }
}

/// For a single-pattern set, selection coincides with shell-glob semantics of
/// that one pattern: `matches(compile([p]), path)` holds iff `path` satisfies
/// the glob `p`.
pub proof fn lemma_single_pattern_round_trip(patterns: Seq<Seq<char>>, path: Seq<char>)
    requires
        patterns.len() == 1,
    ensures
        selects(patterns, path) == glob_accepts(patterns[0], path),
{
    if glob_accepts(patterns[0], path) {
        assert(selects(patterns, path));
    }
}

} // verus!
