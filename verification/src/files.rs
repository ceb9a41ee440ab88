//! The selection of the files to submit: what a walk of the directory tree
//! found, filtered by the deny list.
//!
//! The walk itself is the caller's. It reports every entry that it met, in
//! the order in which it met them; the functions here decide on each entry
//! whether it is submitted, and under which path, or why it is passed over.

use crate::path::{is_normal, lemma_normalized_is_normal, normalize, normalized};
use crate::pattern::{
    all_compile, build_regexes, builtin_filters, first_refused, glob_matches, globs_of, Pattern,
    PatternError, PatternErrorView,
};
use crate::text::{same_text, texts};
use vstd::prelude::*;
use vstd::string::StringExecFns;

verus! {

/// One entry that the walk met.
#[derive(Debug, PartialEq, Eq)]
pub enum WalkEntry {
    /// A file or a directory, with its path as the walk names it.
    Found { path: String, is_dir: bool },
    /// An entry that the walk could not read. The path is given as far as it
    /// is known; `detail` is the walk's own account of what went wrong.
    Unreadable { path: String, detail: String },
    /// An entry whose path is not valid text; `path` is what can be shown of
    /// it.
    NotText { path: String },
}

pub enum WalkEntryView {
    Found { path: Seq<char>, is_dir: bool },
    Unreadable { path: Seq<char>, detail: Seq<char> },
    NotText { path: Seq<char> },
}

impl View for WalkEntry {
    type V = WalkEntryView;

    open spec fn view(&self) -> WalkEntryView {
        match *self {
            WalkEntry::Found { path, is_dir } => WalkEntryView::Found { path: path@, is_dir },
            WalkEntry::Unreadable { path, detail } => WalkEntryView::Unreadable {
                path: path@,
                detail: detail@,
            },
            WalkEntry::NotText { path } => WalkEntryView::NotText { path: path@ },
        }
    }
}

/// Why an entry is not submitted.
#[derive(Debug, PartialEq, Eq)]
pub enum SkipReason {
    /// The walk could not read it; `detail` is the walk's account.
    Unreadable { detail: String },
    /// Its path is not valid text.
    NotText,
    /// It is a directory: directories are walked, and never submitted.
    Directory,
    /// It is the root of the walk.
    Root,
    /// A pattern of the deny list matches its path.
    Excluded,
}

pub enum SkipReasonView {
    Unreadable { detail: Seq<char> },
    NotText,
    Directory,
    Root,
    Excluded,
}

impl View for SkipReason {
    type V = SkipReasonView;

    open spec fn view(&self) -> SkipReasonView {
        match *self {
            SkipReason::Unreadable { detail } => SkipReasonView::Unreadable { detail: detail@ },
            SkipReason::NotText => SkipReasonView::NotText,
            SkipReason::Directory => SkipReasonView::Directory,
            SkipReason::Root => SkipReasonView::Root,
            SkipReason::Excluded => SkipReasonView::Excluded,
        }
    }
}

/// An entry that is not submitted: its path, and why.
#[derive(Debug, PartialEq, Eq)]
pub struct Skipped {
    pub path: String,
    pub reason: SkipReason,
}

pub struct SkippedView {
    pub path: Seq<char>,
    pub reason: SkipReasonView,
}

impl View for Skipped {
    type V = SkippedView;

    open spec fn view(&self) -> SkippedView {
        SkippedView { path: self.path@, reason: self.reason@ }
    }
}

/// What is decided on one entry of the walk: it is submitted under `path`, or
/// it is passed over.
#[derive(Debug, PartialEq, Eq)]
pub enum Outcome {
    Included { path: String },
    Skipped { skipped: Skipped },
}

pub enum OutcomeView {
    Included { path: Seq<char> },
    Skipped { skipped: SkippedView },
}

impl View for Outcome {
    type V = OutcomeView;

    open spec fn view(&self) -> OutcomeView {
        match *self {
            Outcome::Included { path } => OutcomeView::Included { path: path@ },
            Outcome::Skipped { skipped } => OutcomeView::Skipped { skipped: skipped@ },
        }
    }
}

/// The path entry that a walk entry stands for, if it stands for one: only a
/// file does, and the root of the walk, `.`, does not.
pub open spec fn candidate(entry: WalkEntryView) -> Option<Seq<char>> {
    match entry {
        WalkEntryView::Found { path, is_dir } => if is_dir || path == seq!['.'] {
            None
        } else {
            Some(normalized(path))
        },
        WalkEntryView::Unreadable { path, detail } => None,
        WalkEntryView::NotText { path } => None,
    }
}

/// Whether a path is included under a deny list: no glob of the list matches
/// it.
pub open spec fn included(globs: Seq<Seq<char>>, path: Seq<char>) -> bool {
    forall|i: int| 0 <= i < globs.len() ==> !glob_matches(#[trigger] globs[i], path)
}

/// What is decided on one entry under a deny list. A file is submitted under
/// its path entry when the deny list lets that through. What is passed over
/// keeps the path that the walk gave, but for an excluded file, which is
/// named by its path entry.
pub open spec fn outcome(entry: WalkEntryView, globs: Seq<Seq<char>>) -> OutcomeView {
    match entry {
        WalkEntryView::Found { path, is_dir } => if is_dir {
            OutcomeView::Skipped {
                skipped: SkippedView { path, reason: SkipReasonView::Directory },
            }
        } else if path == seq!['.'] {
            OutcomeView::Skipped { skipped: SkippedView { path, reason: SkipReasonView::Root } }
        } else if included(globs, normalized(path)) {
            OutcomeView::Included { path: normalized(path) }
        } else {
            OutcomeView::Skipped {
                skipped: SkippedView { path: normalized(path), reason: SkipReasonView::Excluded },
            }
        },
        WalkEntryView::Unreadable { path, detail } => OutcomeView::Skipped {
            skipped: SkippedView { path, reason: SkipReasonView::Unreadable { detail } },
        },
        WalkEntryView::NotText { path } => OutcomeView::Skipped {
            skipped: SkippedView { path, reason: SkipReasonView::NotText },
        },
    }
}

/// The path under which a walk entry is submitted, if it is submitted.
pub open spec fn kept(entry: WalkEntryView, globs: Seq<Seq<char>>) -> Option<Seq<char>> {
    match outcome(entry, globs) {
        OutcomeView::Included { path } => Some(path),
        OutcomeView::Skipped { skipped } => None,
    }
}

/// The paths that are submitted, in the order of the walk.
pub open spec fn selected(entries: Seq<WalkEntry>, globs: Seq<Seq<char>>) -> Seq<Seq<char>>
    decreases entries.len(),
{
    if entries.len() == 0 {
        Seq::empty()
    } else {
        let before = selected(entries.drop_last(), globs);
        match outcome(entries.last()@, globs) {
            OutcomeView::Included { path } => before.push(path),
            OutcomeView::Skipped { skipped } => before,
        }
    }
}

/// The entries that are passed over, each with its reason, in the order of
/// the walk.
pub open spec fn passed_over(entries: Seq<WalkEntry>, globs: Seq<Seq<char>>) -> Seq<
    SkippedView,
>
    decreases entries.len(),
{
    if entries.len() == 0 {
        Seq::empty()
    } else {
        let before = passed_over(entries.drop_last(), globs);
        match outcome(entries.last()@, globs) {
            OutcomeView::Included { path } => before,
            OutcomeView::Skipped { skipped } => before.push(skipped),
        }
    }
}

/// The views of a list of skipped entries, in order.
pub open spec fn skipped_views(items: Seq<Skipped>) -> Seq<SkippedView> {
    items.map_values(|s: Skipped| s@)
}

/// Every entry of the walk is either submitted or passed over.
pub proof fn lemma_every_entry_is_decided(entries: Seq<WalkEntry>, globs: Seq<Seq<char>>)
    ensures
        selected(entries, globs).len() + passed_over(entries, globs).len() == entries.len(),
    decreases entries.len(),
{
    if entries.len() > 0 {
        lemma_every_entry_is_decided(entries.drop_last(), globs);
    }
}

/// Every submitted path is a path entry that the deny list lets through, and
/// it is the path entry of a file that the walk found.
pub proof fn lemma_selected(entries: Seq<WalkEntry>, globs: Seq<Seq<char>>)
    ensures
        forall|k: int|
            0 <= k < selected(entries, globs).len() ==> {
                let path = #[trigger] selected(entries, globs)[k];
                &&& is_normal(path)
                &&& included(globs, path)
                &&& exists|i: int|
                    0 <= i < entries.len() && candidate(#[trigger] entries[i]@) == Some(path)
            },
    decreases entries.len(),
{
    if entries.len() > 0 {
        let front = entries.drop_last();
        lemma_selected(front, globs);
        assert forall|k: int| 0 <= k < selected(entries, globs).len() implies {
            let path = #[trigger] selected(entries, globs)[k];
            &&& is_normal(path)
            &&& included(globs, path)
            &&& exists|i: int|
                0 <= i < entries.len() && candidate(#[trigger] entries[i]@) == Some(path)
        } by {
            let path = selected(entries, globs)[k];
            if k < selected(front, globs).len() {
                assert(path == selected(front, globs)[k]);
                let i = choose|i: int|
                    0 <= i < front.len() && candidate(#[trigger] front[i]@) == Some(path);
                assert(entries[i] == front[i]);
            } else {
                assert(kept(entries.last()@, globs) == Some(path));
                assert(candidate(entries[entries.len() - 1]@) == Some(path));
                match entries.last()@ {
                    WalkEntryView::Found { path: raw, is_dir } => {
                        lemma_normalized_is_normal(raw);
                    },
                    WalkEntryView::Unreadable { path: raw, detail } => {},
                    WalkEntryView::NotText { path: raw } => {},
                }
            }
        }
    }
}

/// Asks every pattern whether it matches `file`; the answers stand in the
/// order of the patterns.
pub fn probe(regexes: &[Pattern], file: &str) -> (found: Vec<bool>)
    ensures
        found@.len() == regexes@.len(),
        forall|i: int|
            0 <= i < regexes@.len() ==> #[trigger] found@[i] == glob_matches(regexes@[i]@, file@),
{
    let mut found: Vec<bool> = Vec::new();
    let mut i: usize = 0;
    while i < regexes.len()
        invariant
            i <= regexes@.len(),
            found@.len() == i,
            forall|j: int|
                0 <= j < i ==> #[trigger] found@[j] == glob_matches(regexes@[j]@, file@),
        decreases regexes@.len() - i,
    {
        found.push(regexes[i].is_match(file));
        i += 1;
    }
    found
}

/// The result of testing one path against the whole deny list, from the
/// answers of its patterns: the path is included when no pattern matched.
pub fn verdict(found: &[bool]) -> (keep: bool)
    ensures
        keep == forall|i: int| 0 <= i < found@.len() ==> !#[trigger] found@[i],
{
    let mut i: usize = 0;
    while i < found.len()
        invariant
            i <= found@.len(),
            forall|j: int| 0 <= j < i ==> !#[trigger] found@[j],
        decreases found@.len() - i,
    {
        if found[i] {
            return false;
        }
        i += 1;
    }
    true
}

/// Tells whether `file` is included: whether no pattern of the deny list
/// matches it.
pub fn is_included(regexes: &[Pattern], file: &str) -> (b: bool)
    ensures
        b == included(globs_of(regexes@), file@),
{
    let found = probe(regexes, file);
    let keep = verdict(found.as_slice());
    proof {
        let globs = globs_of(regexes@);
        if keep {
            assert forall|i: int| 0 <= i < globs.len() implies !glob_matches(
                #[trigger] globs[i],
                file@,
            ) by {
                assert(!found@[i]);
            }
        } else {
            let i = choose|i: int| 0 <= i < found@.len() && found@[i];
            assert(glob_matches(globs[i], file@));
        }
    }
    keep
}

/// The warning for an entry that was passed over without a decision of the
/// deny list: one that could not be read, or whose path is not valid text.
/// Directories, the root and excluded files give none.
pub open spec fn warning_text(skipped: SkippedView) -> Option<Seq<char>> {
    match skipped.reason {
        SkipReasonView::Unreadable { detail } => Some(
            "Could not read '"@ + skipped.path + "' ("@ + detail + "), it is not submitted"@,
        ),
        SkipReasonView::NotText => Some(
            "The path '"@ + skipped.path + "' is not valid text, it is not submitted"@,
        ),
        SkipReasonView::Directory => None,
        SkipReasonView::Root => None,
        SkipReasonView::Excluded => None,
    }
}

impl Skipped {
    /// The warning to show for this entry, if it calls for one.
    pub fn warning(&self) -> (r: Option<String>)
        ensures
            match r {
                Some(text) => warning_text(self@) == Some(text@),
                None => warning_text(self@) is None,
            },
    {
        match &self.reason {
            SkipReason::Unreadable { detail } => {
                let mut text = String::from_str("Could not read '");
                text.append(self.path.as_str());
                text.append("' (");
                text.append(detail.as_str());
                text.append("), it is not submitted");
                Some(text)
            },
            SkipReason::NotText => {
                let mut text = String::from_str("The path '");
                text.append(self.path.as_str());
                text.append("' is not valid text, it is not submitted");
                Some(text)
            },
            SkipReason::Directory => None,
            SkipReason::Root => None,
            SkipReason::Excluded => None,
        }
    }
}

/// Decides on one walk entry: whether it is submitted, and under which path,
/// or why it is passed over.
pub fn decide(entry: &WalkEntry, regexes: &[Pattern]) -> (r: Outcome)
    ensures
        r@ == outcome(entry@, globs_of(regexes@)),
{
    match entry {
        WalkEntry::Found { path, is_dir } => {
            let raw = path.as_str();
            if *is_dir {
                return Outcome::Skipped {
                    skipped: Skipped { path: path.clone(), reason: SkipReason::Directory },
                };
            }
            proof {
                reveal_strlit(".");
                assert("."@ =~= seq!['.']);
            }
            if same_text(raw, ".") {
                return Outcome::Skipped {
                    skipped: Skipped { path: path.clone(), reason: SkipReason::Root },
                };
            }
            let new_str = normalize(raw);
            if is_included(regexes, new_str.as_str()) {
                Outcome::Included { path: new_str }
            } else {
                Outcome::Skipped { skipped: Skipped { path: new_str, reason: SkipReason::Excluded } }
            }
        },
        WalkEntry::Unreadable { path, detail } => Outcome::Skipped {
            skipped: Skipped {
                path: path.clone(),
                reason: SkipReason::Unreadable { detail: detail.clone() },
            },
        },
        WalkEntry::NotText { path } => Outcome::Skipped {
            skipped: Skipped { path: path.clone(), reason: SkipReason::NotText },
        },
    }
}

/// The path under which one walk entry is submitted, or `None` where it is
/// passed over.
pub fn build_string(entry: &WalkEntry, regexes: &[Pattern]) -> (r: Option<String>)
    ensures
        match r {
            Some(path) => kept(entry@, globs_of(regexes@)) == Some(path@),
            None => kept(entry@, globs_of(regexes@)) is None,
        },
{
    match decide(entry, regexes) {
        Outcome::Included { path } => Some(path),
        Outcome::Skipped { skipped } => None,
    }
}

/// What became of a walk: the paths to submit, and the entries that were
/// passed over, each with the reason.
#[derive(Debug, PartialEq, Eq)]
pub struct Selection {
    /// The paths to submit, in the order of the walk.
    pub included: Vec<String>,
    /// The entries that are not submitted, in the order of the walk. The
    /// caller decides whether to warn of them.
    pub skipped: Vec<Skipped>,
}

/// Filters the entries of a walk by a deny list: every entry is decided on,
/// in the order of the walk.
pub fn select(entries: &[WalkEntry], regexes: &[Pattern]) -> (selection: Selection)
    ensures
        texts(selection.included@) == selected(entries@, globs_of(regexes@)),
        skipped_views(selection.skipped@) == passed_over(entries@, globs_of(regexes@)),
        selection.included@.len() + selection.skipped@.len() == entries@.len(),
        forall|k: int|
            0 <= k < selection.included@.len() ==> is_normal(#[trigger] selection.included@[k]@)
                && included(globs_of(regexes@), selection.included@[k]@),
{
    let ghost globs = globs_of(regexes@);
    let mut included_paths: Vec<String> = Vec::new();
    let mut skipped: Vec<Skipped> = Vec::new();
    let mut i: usize = 0;
    while i < entries.len()
        invariant
            i <= entries@.len(),
            globs == globs_of(regexes@),
            texts(included_paths@) == selected(entries@.take(i as int), globs),
            skipped_views(skipped@) == passed_over(entries@.take(i as int), globs),
        decreases entries@.len() - i,
    {
        proof {
            assert(entries@.take(i + 1).drop_last() =~= entries@.take(i as int));
            assert(entries@.take(i + 1).last() == entries@[i as int]);
        }
        let ghost included_before = included_paths@;
        let ghost skipped_before = skipped@;
        match decide(&entries[i], regexes) {
            Outcome::Included { path } => {
                included_paths.push(path);
                assert(texts(included_paths@) =~= texts(included_before).push(path@));
            },
            Outcome::Skipped { skipped: one } => {
                skipped.push(one);
                assert(skipped_views(skipped@) =~= skipped_views(skipped_before).push(one@));
            },
        }
        i += 1;
    }
    proof {
        assert(entries@.take(entries@.len() as int) =~= entries@);
        lemma_selected(entries@, globs);
        lemma_every_entry_is_decided(entries@, globs);
        assert(texts(included_paths@).len() == included_paths@.len());
        assert(skipped_views(skipped@).len() == skipped@.len());
        assert forall|k: int| 0 <= k < included_paths@.len() implies is_normal(
            #[trigger] included_paths@[k]@,
        ) && included(globs, included_paths@[k]@) by {
            assert(texts(included_paths@)[k] == included_paths@[k]@);
        }
    }
    Selection { included: included_paths, skipped }
}

/// Compiles the built-in deny list and filters the entries of a walk by it.
/// It succeeds exactly when the engine compiles the matcher source of every
/// glob of the list.
pub fn gen_paths(entries: &[WalkEntry]) -> (r: Result<Selection, PatternError>)
    ensures
        r is Ok <==> all_compile(builtin_filters()),
        match r {
            Ok(selection) => {
                &&& texts(selection.included@) == selected(entries@, builtin_filters())
                &&& skipped_views(selection.skipped@) == passed_over(
                    entries@,
                    builtin_filters(),
                )
            },
            Err(e) => exists|i: int|
                first_refused(builtin_filters(), i) && e@ == (PatternErrorView::Invalid {
                    pattern: #[trigger] builtin_filters()[i],
                }),
        },
{
    match build_regexes() {
        Ok(regexes) => Ok(select(entries, regexes.as_slice())),
        Err(e) => Err(e),
    }
}

} // verus!
