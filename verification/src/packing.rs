//! What a packing returns, stated over what happens to each file, and the
//! proof that the packer, driven by a caller that answers each request as it
//! went, returns just that.

use crate::archive::{
    proceed, start, step, stop, ActionView, ArchiveErrorView, Compression, EventView,
    PackerView, Stage,
};
use vstd::prelude::*;

verus! {

/// What happens to one file when it is packed.
pub enum FileFate {
    /// It cannot be opened.
    OpenFails,
    /// It is opened, and cannot be read.
    ReadFails,
    /// It is read, with the content `data`, and cannot be written into the
    /// archive.
    WriteFails { data: Seq<u8> },
    /// It is read, with the content `data`, and written into the archive.
    Stored { data: Seq<u8> },
}

/// The content that was read from a file, where it was read.
pub open spec fn content(fate: FileFate) -> Seq<u8> {
    match fate {
        FileFate::OpenFails => Seq::empty(),
        FileFate::ReadFails => Seq::empty(),
        FileFate::WriteFails { data } => data,
        FileFate::Stored { data } => data,
    }
}

/// The error for a file that is not stored.
pub open spec fn failure(path: Seq<char>, fate: FileFate) -> ArchiveErrorView {
    match fate {
        FileFate::OpenFails => ArchiveErrorView::OpenFailed { path },
        FileFate::ReadFails => ArchiveErrorView::ReadFailed { path },
        FileFate::WriteFails { data } => ArchiveErrorView::WriteFailed { path },
        FileFate::Stored { data } => ArchiveErrorView::WriteFailed { path },
    }
}

/// The result of ending the archive: its bytes, or the failure to end it.
pub open spec fn finalized(archive: Option<Seq<u8>>) -> Result<Seq<u8>, ArchiveErrorView> {
    match archive {
        Some(bytes) => Ok(bytes),
        None => Err(ArchiveErrorView::FinalizeFailed),
    }
}

/// The result of packing the files from the `i`-th on: the failure of the
/// first file that is not stored, else the result of ending the archive.
pub open spec fn build_from(
    paths: Seq<Seq<char>>,
    fates: Seq<FileFate>,
    archive: Option<Seq<u8>>,
    i: nat,
) -> Result<Seq<u8>, ArchiveErrorView>
    decreases paths.len() - i,
{
    if i >= paths.len() {
        finalized(archive)
    } else if fates[i as int] is Stored {
        build_from(paths, fates, archive, i + 1)
    } else {
        Err(failure(paths[i as int], fates[i as int]))
    }
}

/// One entry of the archive: its name, how its content is stored, and its
/// content.
pub struct Entry {
    pub name: Seq<char>,
    pub method: Compression,
    pub data: Seq<u8>,
}

/// The entry for a file that is stored: it is named by the path of the file,
/// compressed with deflate, and holds the content that was read.
pub open spec fn entry(path: Seq<char>, fate: FileFate) -> Entry {
    Entry { name: path, method: Compression::Deflate, data: content(fate) }
}

/// The entries that packing the files from the `i`-th on puts into the
/// archive: those of the files up to the first that is not stored.
pub open spec fn entries_from(paths: Seq<Seq<char>>, fates: Seq<FileFate>, i: nat) -> Seq<
    Entry,
>
    decreases paths.len() - i,
{
    if i >= paths.len() {
        Seq::empty()
    } else if fates[i as int] is Stored {
        seq![entry(paths[i as int], fates[i as int])] + entries_from(paths, fates, i + 1)
    } else {
        Seq::empty()
    }
}

/// The result of packing `paths`, where `fates` says what happens to each
/// file and `archive` what ending the archive gives.
pub open spec fn build(paths: Seq<Seq<char>>, fates: Seq<FileFate>, archive: Option<Seq<u8>>)
    -> Result<Seq<u8>, ArchiveErrorView> {
    build_from(paths, fates, archive, 0)
}

/// The entries that packing `paths` puts into the archive.
pub open spec fn entries(paths: Seq<Seq<char>>, fates: Seq<FileFate>) -> Seq<Entry> {
    entries_from(paths, fates, 0)
}

/// How the pending request of `s` ends, as the files fare.
pub open spec fn answer(s: PackerView, fates: Seq<FileFate>, archive: Option<Seq<u8>>)
    -> EventView {
    let fate = fates[s.done as int];
    match s.stage {
        Stage::Opening => if fate is OpenFails {
            EventView::OpenFailed
        } else {
            EventView::Opened
        },
        Stage::Reading => if fate is ReadFails {
            EventView::ReadFailed
        } else {
            EventView::ReadDone { data: content(fate) }
        },
        Stage::Writing => if fate is Stored {
            EventView::Written
        } else {
            EventView::WriteFailed
        },
        Stage::Finalizing | Stage::Finished => match archive {
            Some(bytes) => EventView::Finalized { archive: bytes },
            None => EventView::FinalizeFailed,
        },
    }
}

/// What a packing came to: its result, and the entries that were written
/// into the archive on the way.
pub struct Run {
    pub result: Result<Seq<u8>, ArchiveErrorView>,
    pub entries: Seq<Entry>,
}

/// An upper bound on the requests that are still to come.
pub open spec fn remaining(s: PackerView) -> nat {
    let files: nat = if s.done <= s.paths.len() {
        (s.paths.len() - s.done) as nat
    } else {
        0
    };
    let rank: nat = match s.stage {
        Stage::Opening => 4,
        Stage::Reading => 3,
        Stage::Writing => 2,
        Stage::Finalizing => 1,
        Stage::Finished => 0,
    };
    4 * files + rank
}

/// The packing from the state `s` with the pending request `action` on: each
/// request is answered as the files fare, and each answer is handed to the
/// packer, until the packer stops.
pub open spec fn run(
    s: PackerView,
    action: ActionView,
    fates: Seq<FileFate>,
    archive: Option<Seq<u8>>,
) -> Run
    decreases remaining(s),
{
    match action {
        ActionView::Finish { result } => Run { result, entries: Seq::empty() },
        _ => {
            let event = answer(s, fates, archive);
            match step(s, event) {
                Some((next, request)) => {
                    let rest = run(next, request, fates, archive);
                    match (action, event) {
                        (ActionView::Write { name, method, data }, EventView::Written) => Run {
                            result: rest.result,
                            entries: seq![Entry { name, method, data }] + rest.entries,
                        },
                        _ => rest,
                    }
                },
                None => Run { result: finalized(None), entries: Seq::empty() },
            }
        },
    }
}

proof fn lemma_run_from(
    paths: Seq<Seq<char>>,
    fates: Seq<FileFate>,
    archive: Option<Seq<u8>>,
    i: nat,
)
    requires
        fates.len() == paths.len(),
        i <= paths.len(),
    ensures
        run(proceed(paths, i).0, proceed(paths, i).1, fates, archive) == (Run {
            result: build_from(paths, fates, archive, i),
            entries: entries_from(paths, fates, i),
        }),
    decreases paths.len() - i,
{
    reveal_with_fuel(run, 2);
    let (s, action) = proceed(paths, i);
    if i < paths.len() {
        let fate = fates[i as int];
        let path = paths[i as int];
        let reading = PackerView { paths, done: i, stage: Stage::Reading };
        let writing = PackerView { paths, done: i, stage: Stage::Writing };
        match fate {
            FileFate::OpenFails => {
                assert(step(s, EventView::OpenFailed) == Some(
                    stop(s, Err(ArchiveErrorView::OpenFailed { path })),
                ));
            },
            FileFate::ReadFails => {
                assert(step(s, EventView::Opened) == Some(
                    (reading, ActionView::Read { path }),
                ));
                assert(step(reading, EventView::ReadFailed) == Some(
                    stop(reading, Err(ArchiveErrorView::ReadFailed { path })),
                ));
                assert(run(reading, ActionView::Read { path }, fates, archive).result == Err::<
                    Seq<u8>,
                    ArchiveErrorView,
                >(ArchiveErrorView::ReadFailed { path }));
            },
            FileFate::WriteFails { data } => {
                assert(step(s, EventView::Opened) == Some(
                    (reading, ActionView::Read { path }),
                ));
                assert(step(reading, EventView::ReadDone { data }) == Some(
                    (writing, ActionView::Write { name: path, method: Compression::Deflate, data }),
                ));
                assert(step(writing, EventView::WriteFailed) == Some(
                    stop(writing, Err(ArchiveErrorView::WriteFailed { path })),
                ));
                let last = run(writing, ActionView::Write { name: path, method: Compression::Deflate, data }, fates, archive);
                assert(last.result == Err::<Seq<u8>, ArchiveErrorView>(
                    ArchiveErrorView::WriteFailed { path },
                ));
                assert(last.entries == Seq::<Entry>::empty());
                assert(run(reading, ActionView::Read { path }, fates, archive) == last);
            },
            FileFate::Stored { data } => {
                lemma_run_from(paths, fates, archive, i + 1);
                let (next, request) = proceed(paths, i + 1);
                let rest = run(next, request, fates, archive);
                assert(step(s, EventView::Opened) == Some(
                    (reading, ActionView::Read { path }),
                ));
                assert(step(reading, EventView::ReadDone { data }) == Some(
                    (writing, ActionView::Write { name: path, method: Compression::Deflate, data }),
                ));
                assert(step(writing, EventView::Written) == Some((next, request)));
                let last = run(writing, ActionView::Write { name: path, method: Compression::Deflate, data }, fates, archive);
                assert(last == Run {
                    result: rest.result,
                    entries: seq![entry(path, fate)] + rest.entries,
                });
                assert(run(reading, ActionView::Read { path }, fates, archive) == last);
            },
        }
    } else {
        match archive {
            Some(bytes) => {
                assert(step(s, EventView::Finalized { archive: bytes }) == Some(
                    stop(s, Ok(bytes)),
                ));
            },
            None => {
                assert(step(s, EventView::FinalizeFailed) == Some(
                    stop(s, Err(ArchiveErrorView::FinalizeFailed)),
                ));
            },
        }
    }
}

/// The packer returns what `build` states, and writes the entries that
/// `entries` states, in their order: the same files in the same state give
/// the same entries.
pub proof fn lemma_run(paths: Seq<Seq<char>>, fates: Seq<FileFate>, archive: Option<Seq<u8>>)
    requires
        fates.len() == paths.len(),
    ensures
        run(start(paths).0, start(paths).1, fates, archive) == (Run {
            result: build(paths, fates, archive),
            entries: entries(paths, fates),
        }),
{
    lemma_run_from(paths, fates, archive, 0);
}

/// Whether the files from the `i`-th up to, but without, the `k`-th are all
/// stored.
pub open spec fn stored_between(fates: Seq<FileFate>, i: nat, k: nat) -> bool {
    forall|j: int| i <= j < k ==> (#[trigger] fates[j]) is Stored
}

proof fn lemma_stored_between(
    paths: Seq<Seq<char>>,
    fates: Seq<FileFate>,
    archive: Option<Seq<u8>>,
    i: nat,
    k: nat,
)
    requires
        i <= k <= paths.len(),
        stored_between(fates, i, k),
    ensures
        build_from(paths, fates, archive, i) == build_from(paths, fates, archive, k),
        entries_from(paths, fates, i) == Seq::new(
            (k - i) as nat,
            |j: int| entry(paths[i + j], fates[i + j]),
        ) + entries_from(paths, fates, k),
    decreases k - i,
{
    let front = Seq::new((k - i) as nat, |j: int| entry(paths[i + j], fates[i + j]));
    if i < k {
        assert(fates[i as int] is Stored);
        lemma_stored_between(paths, fates, archive, i + 1, k);
        let tail = Seq::new(
            (k - (i + 1)) as nat,
            |j: int| entry(paths[i + 1 + j], fates[i + 1 + j]),
        );
        assert(front =~= seq![entry(paths[i as int], fates[i as int])] + tail);
        assert(entries_from(paths, fates, i) =~= front + entries_from(paths, fates, k));
    } else {
        assert(entries_from(paths, fates, i) =~= front + entries_from(paths, fates, k));
    }
}

/// Packing no file writes no entry and returns the bytes of the ended
/// archive: the first request is to end the archive, and what that gives is
/// the result.
pub proof fn lemma_empty_input(archive: Seq<u8>)
    ensures
        start(Seq::empty()).1 == ActionView::Finalize,
        build(Seq::empty(), Seq::empty(), Some(archive)) == Ok::<Seq<u8>, ArchiveErrorView>(
            archive,
        ),
        entries(Seq::empty(), Seq::empty()) == Seq::<Entry>::empty(),
{
}

/// Where every file is stored, the archive holds one entry for each path, in
/// the order of the paths, under the path as its name, compressed with
/// deflate, and with the content that was read from the file; the result is
/// that of ending the archive.
pub proof fn lemma_all_stored(
    paths: Seq<Seq<char>>,
    fates: Seq<FileFate>,
    archive: Option<Seq<u8>>,
)
    requires
        fates.len() == paths.len(),
        stored_between(fates, 0, paths.len()),
    ensures
        build(paths, fates, archive) == finalized(archive),
        entries(paths, fates).len() == paths.len(),
        forall|i: int|
            0 <= i < paths.len() ==> #[trigger] entries(paths, fates)[i] == entry(
                paths[i],
                fates[i],
            ),
{
    lemma_stored_between(paths, fates, archive, 0, paths.len());
}

/// Where the `k`-th file is the first that is not stored, the packing fails
/// with the error of that file, which carries its path, whatever happens to
/// the files after it; the entries written before are those of the files
/// before it.
pub proof fn lemma_first_failure(
    paths: Seq<Seq<char>>,
    fates: Seq<FileFate>,
    archive: Option<Seq<u8>>,
    k: nat,
)
    requires
        fates.len() == paths.len(),
        k < paths.len(),
        stored_between(fates, 0, k),
        !(fates[k as int] is Stored),
    ensures
        build(paths, fates, archive) == Err::<Seq<u8>, ArchiveErrorView>(
            failure(paths[k as int], fates[k as int]),
        ),
        entries(paths, fates).len() == k,
        forall|i: int|
            0 <= i < k ==> #[trigger] entries(paths, fates)[i] == entry(paths[i], fates[i]),
{
    lemma_stored_between(paths, fates, archive, 0, k);
}

/// Every entry that a packing writes is named by one of the paths and is
/// compressed with deflate, whatever happens to the files. So the archive
/// holds no entry for a directory, nor for anything else that is not among
/// the paths.
pub proof fn lemma_entries_are_deflated_files(
    paths: Seq<Seq<char>>,
    fates: Seq<FileFate>,
    archive: Option<Seq<u8>>,
)
    requires
        fates.len() == paths.len(),
    ensures
        forall|k: int|
            0 <= k < run(start(paths).0, start(paths).1, fates, archive).entries.len() ==> {
                let written = #[trigger] run(
                    start(paths).0,
                    start(paths).1,
                    fates,
                    archive,
                ).entries[k];
                &&& written.method == Compression::Deflate
                &&& k < paths.len()
                &&& written.name == paths[k]
            },
{
    lemma_run(paths, fates, archive);
    lemma_entries_from(paths, fates, 0);
}

proof fn lemma_entries_from(paths: Seq<Seq<char>>, fates: Seq<FileFate>, i: nat)
    requires
        fates.len() == paths.len(),
        i <= paths.len(),
    ensures
        entries_from(paths, fates, i).len() <= paths.len() - i,
        forall|k: int|
            0 <= k < entries_from(paths, fates, i).len() ==> #[trigger] entries_from(
                paths,
                fates,
                i,
            )[k] == entry(paths[i + k], fates[i + k]),
    decreases paths.len() - i,
{
    if i < paths.len() && fates[i as int] is Stored {
        lemma_entries_from(paths, fates, i + 1);
    }
}

/// The entries that a packing writes do not depend on what ending the
/// archive gives: two packings of the same paths, whose files fare the
/// same, write the same entries, with the same names and contents, in the
/// same order.
pub proof fn lemma_same_files_same_entries(
    paths: Seq<Seq<char>>,
    fates: Seq<FileFate>,
    first: Option<Seq<u8>>,
    second: Option<Seq<u8>>,
)
    requires
        fates.len() == paths.len(),
    ensures
        run(start(paths).0, start(paths).1, fates, first).entries == run(
            start(paths).0,
            start(paths).1,
            fates,
            second,
        ).entries,
{
    lemma_run(paths, fates, first);
    lemma_run(paths, fates, second);
}

} // verus!
