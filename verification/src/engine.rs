//! The matching engine: the `regex` crate, as far as this crate relies on it.
//!
//! Nothing here is proved. A compiled matcher is opaque; the three names
//! below stand for what the engine answers, and the two contracts tie the
//! calls to them.

use regex::{Error, Regex};
use vstd::prelude::*;

verus! {

/// `regex::Regex`, a compiled matcher. Nothing inside it is visible here.
#[verifier::external_type_specification]
#[verifier::external_body]
pub struct ExRegex(Regex);

/// `regex::Error`, the reason why a pattern was refused. It is carried, and
/// never read.
#[verifier::external_type_specification]
#[verifier::external_body]
pub struct ExError(Error);

/// Whether the compiled matcher `matcher` finds a match somewhere in
/// `haystack`: the answer of `Regex::is_match`.
pub uninterp spec fn matcher_accepts(matcher: Regex, haystack: Seq<char>) -> bool;

/// Whether `Regex::new` accepts the text `source` as a pattern and compiles
/// it.
pub uninterp spec fn source_compiles(source: Seq<char>) -> bool;

/// Whether a matcher that `Regex::new` compiled from the text `source` finds a
/// match somewhere in `haystack`.
pub uninterp spec fn source_accepts(source: Seq<char>, haystack: Seq<char>) -> bool;

/// `matcher` answers on every haystack as the text `source` prescribes.
pub open spec fn compiled_from(matcher: Regex, source: Seq<char>) -> bool {
    forall|haystack: Seq<char>| #[trigger]
        matcher_accepts(matcher, haystack) == source_accepts(source, haystack)
}

/// `Regex::new` compiles a pattern, or refuses it (bad syntax, or a compiled
/// program over the size limit). It works with fixed default options and
/// limits and reads nothing but the pattern text. So the contract claims
/// that compiling is repeatable: whether a matcher comes out, and what a
/// matcher that came out accepts, are settled by the pattern text. It does
/// not say which patterns are refused, nor what a pattern accepts.
pub assume_specification[ Regex::new ](re: &str) -> (r: Result<Regex, Error>)
    ensures
        r is Ok <==> source_compiles(re@),
        r matches Ok(matcher) ==> forall|haystack: Seq<char>| #[trigger]
            matcher_accepts(matcher, haystack) == source_accepts(re@, haystack),
;

/// `Regex::is_match` says whether the matcher finds a match anywhere in the
/// haystack. It reads the matcher and the haystack only, so its answer is
/// named by them.
pub assume_specification[ Regex::is_match ](matcher: &Regex, haystack: &str) -> (b: bool)
    ensures
        b == matcher_accepts(*matcher, haystack@),
;

} // verus!
