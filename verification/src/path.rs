//! Path entries: the text under which a file is matched and archived.
//!
//! A path entry is relative to the root of the walk, uses `/` between its
//! components and does not begin with `./`. Two entries with the same text
//! are the same entry.

use vstd::prelude::*;

verus! {

/// The separator rule for one character: a backslash becomes a slash.
pub open spec fn slash(c: char) -> char {
    if c == '\\' {
        '/'
    } else {
        c
    }
}

/// The text with every backslash turned into a slash.
pub open spec fn to_forward_slashes(raw: Seq<char>) -> Seq<char> {
    raw.map_values(|c: char| slash(c))
}

/// Whether the text begins with `./`.
pub open spec fn starts_with_current_dir(path: Seq<char>) -> bool {
    path.len() >= 2 && path[0] == '.' && path[1] == '/'
}

/// The text without any `./` in front of it.
pub open spec fn strip_current_dir(path: Seq<char>) -> Seq<char>
    decreases path.len(),
{
    if starts_with_current_dir(path) {
        strip_current_dir(path.skip(2))
    } else {
        path
    }
}

/// The path entry for the text that a walk reports.
pub open spec fn normalized(raw: Seq<char>) -> Seq<char> {
    strip_current_dir(to_forward_slashes(raw))
}

/// Whether the text is a path entry: it holds no backslash and does not begin
/// with `./`.
pub open spec fn is_normal(path: Seq<char>) -> bool {
    &&& forall|i: int| 0 <= i < path.len() ==> #[trigger] path[i] != '\\'
    &&& !starts_with_current_dir(path)
}

/// Stripping leaves a tail of the text that does not begin with `./`.
pub proof fn lemma_strip_current_dir(path: Seq<char>)
    ensures
        !starts_with_current_dir(strip_current_dir(path)),
        exists|k: int|
            0 <= k <= path.len() && #[trigger] path.skip(k) == strip_current_dir(path),
    decreases path.len(),
{
    if starts_with_current_dir(path) {
        let rest = path.skip(2);
        lemma_strip_current_dir(rest);
        let k = choose|k: int|
            0 <= k <= rest.len() && #[trigger] rest.skip(k) == strip_current_dir(rest);
        assert(path.skip(k + 2) =~= rest.skip(k));
    } else {
        assert(path.skip(0) =~= path);
    }
}

/// Normalizing gives a path entry.
pub proof fn lemma_normalized_is_normal(raw: Seq<char>)
    ensures
        is_normal(normalized(raw)),
{
    let slashed = to_forward_slashes(raw);
    lemma_strip_current_dir(slashed);
    let k = choose|k: int|
        0 <= k <= slashed.len() && #[trigger] slashed.skip(k) == strip_current_dir(slashed);
    assert forall|i: int| 0 <= i < normalized(raw).len() implies #[trigger] normalized(raw)[i]
        != '\\' by {
        assert(normalized(raw)[i] == slashed[k + i]);
    }
}

/// A path entry is its own normal form: normalizing twice changes nothing.
pub proof fn lemma_normal_is_fixed(path: Seq<char>)
    requires
        is_normal(path),
    ensures
        normalized(path) == path,
{
    assert(to_forward_slashes(path) =~= path);
}

/// Makes the path entry for the text that a walk reports: backslashes become
/// slashes, and every `./` in front is dropped.
pub fn normalize(raw: &str) -> (path: String)
    ensures
        path@ == normalized(raw@),
        is_normal(path@),
{
    let mut slashed: Vec<char> = Vec::new();
    for c in it: raw.chars()
        invariant
            it.seq() == raw@,
            slashed@ == to_forward_slashes(raw@.take(it.index() as int)),
    {
        if c == '\\' {
            slashed.push('/');
        } else {
            slashed.push(c);
        }
        assert(slashed@ =~= to_forward_slashes(raw@.take(it.index() + 1)));
    }
    assert(raw@.take(raw@.len() as int) == raw@);
    let mut start: usize = 0;
    assert(slashed@.skip(0) =~= slashed@);
    while slashed.len() - start >= 2 && slashed[start] == '.' && slashed[start + 1] == '/'
        invariant
            start <= slashed@.len(),
            strip_current_dir(slashed@) == strip_current_dir(slashed@.skip(start as int)),
        decreases slashed@.len() - start,
    {
        assert(slashed@.skip(start as int).skip(2) =~= slashed@.skip(start + 2));
        start += 2;
    }
    let mut path = String::new();
    let mut i: usize = start;
    while i < slashed.len()
        invariant
            start <= i <= slashed@.len(),
            path@ == slashed@.subrange(start as int, i as int),
        decreases slashed@.len() - i,
    {
        path.push(slashed[i]);
        i += 1;
        assert(path@ =~= slashed@.subrange(start as int, i as int));
    }
    proof {
        assert(slashed@.subrange(start as int, slashed@.len() as int) =~= slashed@.skip(
            start as int,
        ));
        lemma_normalized_is_normal(raw@);
    }
    path
}

} // verus!
