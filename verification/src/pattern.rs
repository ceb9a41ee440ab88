//! Compiled patterns and the built-in deny list.

use crate::engine::{compiled_from, source_accepts, source_compiles};
use crate::glob::{is_supported, matcher_source, supported, translate};
use crate::text::slice_texts;
use regex::{Error, Regex};
use vstd::prelude::*;
use vstd::string::StringExecFns;

verus! {

/// Why a glob could not be made into a pattern.
#[derive(Debug, PartialEq, Eq)]
pub enum PatternError {
    /// The glob uses syntax that the translation does not cover.
    Unsupported { pattern: String },
    /// The engine refused the matcher source written for the glob.
    Invalid { pattern: String },
}

pub enum PatternErrorView {
    Unsupported { pattern: Seq<char> },
    Invalid { pattern: Seq<char> },
}

impl View for PatternError {
    type V = PatternErrorView;

    open spec fn view(&self) -> PatternErrorView {
        match *self {
            PatternError::Unsupported { pattern } => PatternErrorView::Unsupported {
                pattern: pattern@,
            },
            PatternError::Invalid { pattern } => PatternErrorView::Invalid { pattern: pattern@ },
        }
    }
}

/// The text shown for a pattern error: which pattern failed, and what to do.
pub open spec fn pattern_error_text(e: PatternErrorView) -> Seq<char> {
    match e {
        PatternErrorView::Unsupported { pattern } => "Pattern '"@ + pattern
            + "' uses '?' or a bracket class, which are not supported"@,
        PatternErrorView::Invalid { pattern } => "Failed to build a matcher for pattern '"@
            + pattern + "', try restoring the default pattern list"@,
    }
}

impl PatternError {
    /// The text to show to the user.
    pub fn message(&self) -> (text: String)
        ensures
            text@ == pattern_error_text(self@),
    {
        match self {
            PatternError::Unsupported { pattern } => {
                let mut text = String::from_str("Pattern '");
                text.append(pattern.as_str());
                text.append("' uses '?' or a bracket class, which are not supported");
                text
            },
            PatternError::Invalid { pattern } => {
                let mut text = String::from_str("Failed to build a matcher for pattern '");
                text.append(pattern.as_str());
                text.append("', try restoring the default pattern list");
                text
            },
        }
    }
}

/// Whether `glob` can be made into a pattern: it is supported, and the
/// engine compiles the matcher source written for it.
pub open spec fn compiles(glob: Seq<char>) -> bool {
    supported(glob) && source_compiles(matcher_source(glob))
}

/// Whether every glob of the list can be made into a pattern.
pub open spec fn all_compile(globs: Seq<Seq<char>>) -> bool {
    forall|i: int| 0 <= i < globs.len() ==> compiles(#[trigger] globs[i])
}

/// The error for a glob that cannot be made into a pattern.
pub open spec fn refusal(glob: Seq<char>) -> PatternErrorView {
    if supported(glob) {
        PatternErrorView::Invalid { pattern: glob }
    } else {
        PatternErrorView::Unsupported { pattern: glob }
    }
}

/// Whether the pattern made from `glob` matches `path`: whether the matcher
/// compiled from the glob's matcher source accepts the path.
pub open spec fn glob_matches(glob: Seq<char>, path: Seq<char>) -> bool {
    source_accepts(matcher_source(glob), path)
}

/// A glob together with the matcher compiled from it. Its view is the glob.
#[derive(Debug)]
pub struct Pattern {
    raw: String,
    matcher: Regex,
}

impl View for Pattern {
    type V = Seq<char>;

    closed spec fn view(&self) -> Seq<char> {
        self.raw@
    }
}

impl Pattern {
    #[verifier::type_invariant]
    closed spec fn inv(&self) -> bool {
        compiled_from(self.matcher, matcher_source(self.raw@))
    }

    /// Makes the pattern for `raw` out of what the engine returned for the
    /// matcher source of `raw`.
    pub fn from_compiled(raw: &str, outcome: Result<Regex, Error>) -> (r: Result<
        Pattern,
        PatternError,
    >)
        requires
            outcome matches Ok(matcher) ==> compiled_from(matcher, matcher_source(raw@)),
        ensures
            match r {
                Ok(pattern) => outcome is Ok && pattern@ == raw@,
                Err(e) => outcome is Err && e@ == (PatternErrorView::Invalid { pattern: raw@ }),
            },
    {
        match outcome {
            Ok(matcher) => Ok(Pattern { raw: String::from_str(raw), matcher }),
            Err(_) => Err(PatternError::Invalid { pattern: String::from_str(raw) }),
        }
    }

    /// The glob that the pattern was made from.
    pub fn raw(&self) -> (glob: &str)
        ensures
            glob@ == self@,
    {
        self.raw.as_str()
    }

    /// Tells whether the pattern matches `path`.
    pub fn is_match(&self, path: &str) -> (b: bool)
        ensures
            b == glob_matches(self@, path@),
    {
        proof {
            use_type_invariant(self);
        }
        self.matcher.is_match(path)
    }
}

/// Compiles one glob. An unsupported glob is refused here; any other is
/// translated and handed to the engine. The pattern comes out exactly when
/// the glob is supported and the engine compiles its matcher source.
pub fn generate_regex(filter: &str) -> (r: Result<Pattern, PatternError>)
    ensures
        r is Ok <==> compiles(filter@),
        match r {
            Ok(pattern) => pattern@ == filter@,
            Err(e) => e@ == refusal(filter@),
        },
{
    if !is_supported(filter) {
        return Err(PatternError::Unsupported { pattern: String::from_str(filter) });
    }
    let source = translate(filter);
    Pattern::from_compiled(filter, Regex::new(source.as_str()))
}

/// The globs of a list of patterns, in order.
pub open spec fn globs_of(patterns: Seq<Pattern>) -> Seq<Seq<char>> {
    patterns.map_values(|p: Pattern| p@)
}

/// Whether the `i`-th glob of the list is the first that cannot be made into
/// a pattern.
pub open spec fn first_refused(globs: Seq<Seq<char>>, i: int) -> bool {
    &&& 0 <= i < globs.len()
    &&& !compiles(globs[i])
    &&& forall|j: int| 0 <= j < i ==> compiles(#[trigger] globs[j])
}

/// Compiles the globs in order and stops at the first that fails. It
/// succeeds exactly when every glob can be made into a pattern; the patterns
/// then stand in the order of their globs. A failure is the error of the
/// first glob that cannot be made into a pattern.
pub fn compile(raw_patterns: &[&str]) -> (r: Result<Vec<Pattern>, PatternError>)
    ensures
        r is Ok <==> all_compile(slice_texts(raw_patterns@)),
        match r {
            Ok(patterns) => globs_of(patterns@) == slice_texts(raw_patterns@),
            Err(e) => exists|i: int|
                first_refused(slice_texts(raw_patterns@), i) && e@ == refusal(
                    #[trigger] slice_texts(raw_patterns@)[i],
                ),
        },
{
    let ghost globs = slice_texts(raw_patterns@);
    let mut patterns: Vec<Pattern> = Vec::new();
    let mut i: usize = 0;
    while i < raw_patterns.len()
        invariant
            i <= raw_patterns@.len(),
            globs == slice_texts(raw_patterns@),
            patterns@.len() == i,
            forall|j: int| 0 <= j < i ==> (#[trigger] patterns@[j])@ == globs[j],
            forall|j: int| 0 <= j < i ==> compiles(#[trigger] globs[j]),
        decreases raw_patterns@.len() - i,
    {
        assert(globs[i as int] == raw_patterns@[i as int]@);
        match generate_regex(raw_patterns[i]) {
            Ok(pattern) => {
                patterns.push(pattern);
            },
            Err(e) => {
                assert(first_refused(globs, i as int));
                return Err(e);
            },
        }
        i += 1;
    }
    assert(globs_of(patterns@) =~= globs);
    Ok(patterns)
}

/// The built-in deny list: version-control metadata, build artifacts, editor
/// backups and operating-system litter.
pub open spec fn builtin_filters() -> Seq<Seq<char>> {
    seq![
        "."@, ".."@, "core"@, "RCSLOG"@, "tags"@, "TAGS"@,
        "RCS"@, "SCCS"@, ".make.state"@, ".nse_depinfo"@, "#*"@, ".#*"@,
        "cvslog.*"@, ",*"@, ".git"@, "CVS"@, "CVS.adm"@, ".del-*"@,
        "*.a"@, "*.olb"@, "*.o"@, "*.obj"@, "*.so"@, "*.Z"@,
        "*~"@, "*.old"@, "*.elc"@, "*.ln"@, "*.bak"@, "*.BAK"@,
        "*.orig"@, "*.rej"@, "*.exe"@, "*.dll"@, "*.pdb"@, "*.lib"@,
        "*.ncb"@, "*.ilk"@, "*.exp"@, "*.suo"@, ".DS_Store"@, "_$*"@,
        "*$"@, "*.lo"@, "*.pch"@, "*.idb"@, "*.class"@, "~*"@,
    ]
}

/// The built-in deny list.
pub fn default_filters() -> (filters: Vec<&'static str>)
    ensures
        slice_texts(filters@) == builtin_filters(),
{
    let filters = vec![
        ".", "..", "core", "RCSLOG", "tags", "TAGS", "RCS", "SCCS",
        ".make.state", ".nse_depinfo", "#*", ".#*", "cvslog.*", ",*", ".git", "CVS",
        "CVS.adm", ".del-*", "*.a", "*.olb", "*.o", "*.obj", "*.so", "*.Z",
        "*~", "*.old", "*.elc", "*.ln", "*.bak", "*.BAK", "*.orig", "*.rej",
        "*.exe", "*.dll", "*.pdb", "*.lib", "*.ncb", "*.ilk", "*.exp", "*.suo",
        ".DS_Store", "_$*", "*$", "*.lo", "*.pch", "*.idb", "*.class", "~*",
    ];
    assert(slice_texts(filters@) =~= builtin_filters());
    filters
}

/// Every glob of the built-in deny list is supported.
pub proof fn lemma_builtin_filters_supported()
    ensures
        builtin_filters().len() == 48,
        forall|i: int| 0 <= i < 48 ==> supported(#[trigger] builtin_filters()[i]),
{
    reveal_strlit(".");
    reveal_strlit("..");
    reveal_strlit("core");
    reveal_strlit("RCSLOG");
    reveal_strlit("tags");
    reveal_strlit("TAGS");
    reveal_strlit("RCS");
    reveal_strlit("SCCS");
    reveal_strlit(".make.state");
    reveal_strlit(".nse_depinfo");
    reveal_strlit("#*");
    reveal_strlit(".#*");
    reveal_strlit("cvslog.*");
    reveal_strlit(",*");
    reveal_strlit(".git");
    reveal_strlit("CVS");
    reveal_strlit("CVS.adm");
    reveal_strlit(".del-*");
    reveal_strlit("*.a");
    reveal_strlit("*.olb");
    reveal_strlit("*.o");
    reveal_strlit("*.obj");
    reveal_strlit("*.so");
    reveal_strlit("*.Z");
    reveal_strlit("*~");
    reveal_strlit("*.old");
    reveal_strlit("*.elc");
    reveal_strlit("*.ln");
    reveal_strlit("*.bak");
    reveal_strlit("*.BAK");
    reveal_strlit("*.orig");
    reveal_strlit("*.rej");
    reveal_strlit("*.exe");
    reveal_strlit("*.dll");
    reveal_strlit("*.pdb");
    reveal_strlit("*.lib");
    reveal_strlit("*.ncb");
    reveal_strlit("*.ilk");
    reveal_strlit("*.exp");
    reveal_strlit("*.suo");
    reveal_strlit(".DS_Store");
    reveal_strlit("_$*");
    reveal_strlit("*$");
    reveal_strlit("*.lo");
    reveal_strlit("*.pch");
    reveal_strlit("*.idb");
    reveal_strlit("*.class");
    reveal_strlit("~*");
}

/// Compiles the built-in deny list. It succeeds exactly when the engine
/// compiles the matcher source of every glob of the list. The only failure
/// left is a refusal by the engine, and it names the first glob that the
/// engine refused.
pub fn build_regexes() -> (r: Result<Vec<Pattern>, PatternError>)
    ensures
        r is Ok <==> all_compile(builtin_filters()),
        match r {
            Ok(patterns) => globs_of(patterns@) == builtin_filters(),
            Err(e) => exists|i: int|
                first_refused(builtin_filters(), i) && e@ == (PatternErrorView::Invalid {
                    pattern: #[trigger] builtin_filters()[i],
                }),
        },
{
    let filters = default_filters();
    proof {
        lemma_builtin_filters_supported();
    }
    compile(filters.as_slice())
}

} // verus!
