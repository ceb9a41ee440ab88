//! Translation of a glob pattern into the source text of a matcher.
//!
//! A glob is plain text in which `*` stands for any run of characters, path
//! separators included. The matcher built from it accepts a path when the glob
//! covers a run of whole path components: the run starts at the beginning of
//! the path or right after a `/`, and ends at the end of the path or right
//! before a `/`.

use vstd::prelude::*;
use vstd::string::StringExecFns;

verus! {

/// What one character of a glob becomes in the matcher source: `$` and `.`
/// are escaped so that they stand for themselves, `*` becomes the unbounded
/// wildcard, and every other character is kept.
pub open spec fn escape_char(c: char) -> Seq<char> {
    if c == '$' {
        seq!['\\', '$']
    } else if c == '.' {
        seq!['\\', '.']
    } else if c == '*' {
        seq!['.', '*']
    } else {
        seq![c]
    }
}

/// The glob with each character replaced by `escape_char` of it.
pub open spec fn escape(glob: Seq<char>) -> Seq<char>
    decreases glob.len(),
{
    if glob.len() == 0 {
        Seq::empty()
    } else {
        escape(glob.drop_last()) + escape_char(glob.last())
    }
}

/// Start of every matcher source: the wildcard also covers line breaks, and
/// the glob may begin at the start of the path or after any `/`.
pub open spec fn anchor_start() -> Seq<char> {
    "(?s)^(.*/)*"@
}

/// End of every matcher source: the glob must end at the end of the path or
/// right before a `/`.
pub open spec fn anchor_end() -> Seq<char> {
    "(/.*)?$"@
}

/// The matcher source for a glob.
pub open spec fn matcher_source(glob: Seq<char>) -> Seq<char> {
    anchor_start() + escape(glob) + anchor_end()
}

/// Glob syntax that the translation does not cover: the one-character
/// wildcard and bracket classes.
pub open spec fn is_unsupported(c: char) -> bool {
    c == '?' || c == '[' || c == ']'
}

/// A glob is supported when it uses none of the syntax that the translation
/// does not cover.
pub open spec fn supported(glob: Seq<char>) -> bool {
    forall|i: int| 0 <= i < glob.len() ==> !is_unsupported(#[trigger] glob[i])
}

/// Tells whether `glob` is supported.
pub fn is_supported(glob: &str) -> (b: bool)
    ensures
        b == supported(glob@),
{
    for c in it: glob.chars()
        invariant
            it.seq() == glob@,
            supported(glob@.take(it.index() as int)),
    {
        if c == '?' || c == '[' || c == ']' {
            assert(is_unsupported(glob@[it.index() as int]));
            return false;
        }
        assert forall|i: int| 0 <= i < it.index() + 1 implies !is_unsupported(
            #[trigger] glob@.take(it.index() + 1)[i],
        ) by {
            if i < it.index() {
                assert(glob@.take(it.index() as int)[i] == glob@[i]);
            }
        }
    }
    assert(glob@.take(glob@.len() as int) == glob@);
    true
}

/// Writes the matcher source for `glob`.
pub fn translate(glob: &str) -> (source: String)
    ensures
        source@ == matcher_source(glob@),
{
    let mut source = String::from_str("(?s)^(.*/)*");
    for c in it: glob.chars()
        invariant
            it.seq() == glob@,
            source@ == anchor_start() + escape(glob@.take(it.index() as int)),
    {
        proof {
            let done = glob@.take(it.index() as int);
            let next = glob@.take(it.index() + 1);
            assert(next.drop_last() == done);
            assert(next.last() == c);
        }
        if c == '$' {
            source.push('\\');
            source.push('$');
        } else if c == '.' {
            source.push('\\');
            source.push('.');
        } else if c == '*' {
            source.push('.');
            source.push('*');
        } else {
            source.push(c);
        }
    }
    proof {
        assert(glob@.take(glob@.len() as int) == glob@);
    }
    source.append("(/.*)?$");
    source
}

} // verus!
