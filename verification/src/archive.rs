//! Packing the selected files into one archive, one file after the other.
//!
//! Opening and reading a file and writing into the archive are the caller's
//! work. The packer decides: it names the next request, takes the event that
//! answers it, and names the request after that, until it hands out the
//! result. The first failure ends the packing; no partial archive is
//! returned.
//!
//! ```text
//! let (mut packer, mut action) = pack(&paths);
//! loop {
//!     let event = match action {
//!         Action::Finish { result } => return result,
//!         request => perform(request),
//!     };
//!     action = packer.advance(event).expect("an answer to the request");
//! }
//! ```

use crate::text::texts;
use vstd::prelude::*;
use vstd::string::StringExecFns;

verus! {

/// Why the packing failed. A failure on a file carries the path of that file.
#[derive(Debug, PartialEq, Eq)]
pub enum ArchiveError {
    OpenFailed { path: String },
    ReadFailed { path: String },
    WriteFailed { path: String },
    FinalizeFailed,
}

pub enum ArchiveErrorView {
    OpenFailed { path: Seq<char> },
    ReadFailed { path: Seq<char> },
    WriteFailed { path: Seq<char> },
    FinalizeFailed,
}

impl View for ArchiveError {
    type V = ArchiveErrorView;

    open spec fn view(&self) -> ArchiveErrorView {
        match *self {
            ArchiveError::OpenFailed { path } => ArchiveErrorView::OpenFailed { path: path@ },
            ArchiveError::ReadFailed { path } => ArchiveErrorView::ReadFailed { path: path@ },
            ArchiveError::WriteFailed { path } => ArchiveErrorView::WriteFailed { path: path@ },
            ArchiveError::FinalizeFailed => ArchiveErrorView::FinalizeFailed,
        }
    }
}

/// The text shown for an archive error. It tells apart a file that could not
/// be opened, one that could not be read and one that could not be added.
pub open spec fn archive_error_text(e: ArchiveErrorView) -> Seq<char> {
    match e {
        ArchiveErrorView::OpenFailed { path } => "Could not open file '"@ + path + "'"@,
        ArchiveErrorView::ReadFailed { path } => "Could not read file '"@ + path + "'"@,
        ArchiveErrorView::WriteFailed { path } => "Failed to add '"@ + path + "' to zip file"@,
        ArchiveErrorView::FinalizeFailed => "Unable to write zip file"@,
    }
}

impl ArchiveError {
    /// The text to show to the user.
    pub fn message(&self) -> (text: String)
        ensures
            text@ == archive_error_text(self@),
    {
        match self {
            ArchiveError::OpenFailed { path } => {
                let mut text = String::from_str("Could not open file '");
                text.append(path.as_str());
                text.append("'");
                text
            },
            ArchiveError::ReadFailed { path } => {
                let mut text = String::from_str("Could not read file '");
                text.append(path.as_str());
                text.append("'");
                text
            },
            ArchiveError::WriteFailed { path } => {
                let mut text = String::from_str("Failed to add '");
                text.append(path.as_str());
                text.append("' to zip file");
                text
            },
            ArchiveError::FinalizeFailed => String::from_str("Unable to write zip file"),
        }
    }
}

/// How the content of an entry is stored in the archive.
#[derive(Clone, Copy, PartialEq, Eq, Structural, Debug)]
pub enum Compression {
    /// As it is.
    Stored,
    /// Compressed with deflate.
    Deflate,
}

/// What the packer asks its caller to do next.
#[derive(Debug, PartialEq, Eq)]
pub enum Action {
    /// Open the file at `path`.
    Open { path: String },
    /// Read the whole content of the file that was opened; `path` names it.
    Read { path: String },
    /// Write `data` into the archive as one entry named `name`, stored by
    /// `method`. The packer asks for deflate on every entry.
    Write { name: String, method: Compression, data: Vec<u8> },
    /// Write what ends the archive, and hand its bytes over.
    Finalize,
    /// Stop: `result` is the result of the packing.
    Finish { result: Result<Vec<u8>, ArchiveError> },
}

pub enum ActionView {
    Open { path: Seq<char> },
    Read { path: Seq<char> },
    Write { name: Seq<char>, method: Compression, data: Seq<u8> },
    Finalize,
    Finish { result: Result<Seq<u8>, ArchiveErrorView> },
}

impl View for Action {
    type V = ActionView;

    open spec fn view(&self) -> ActionView {
        match *self {
            Action::Open { path } => ActionView::Open { path: path@ },
            Action::Read { path } => ActionView::Read { path: path@ },
            Action::Write { name, method, data } => ActionView::Write {
                name: name@,
                method,
                data: data@,
            },
            Action::Finalize => ActionView::Finalize,
            Action::Finish { result } => ActionView::Finish {
                result: match result {
                    Ok(archive) => Ok(archive@),
                    Err(e) => Err(e@),
                },
            },
        }
    }
}

/// How a request ended.
#[derive(Debug, PartialEq, Eq)]
pub enum Event {
    /// The file was opened.
    Opened,
    /// The file could not be opened.
    OpenFailed,
    /// The file was read; `data` is its whole content.
    ReadDone { data: Vec<u8> },
    /// The file could not be read.
    ReadFailed,
    /// The entry was written into the archive.
    Written,
    /// The entry could not be written.
    WriteFailed,
    /// The archive was ended; `archive` holds its bytes.
    Finalized { archive: Vec<u8> },
    /// The archive could not be ended.
    FinalizeFailed,
}

pub enum EventView {
    Opened,
    OpenFailed,
    ReadDone { data: Seq<u8> },
    ReadFailed,
    Written,
    WriteFailed,
    Finalized { archive: Seq<u8> },
    FinalizeFailed,
}

impl View for Event {
    type V = EventView;

    open spec fn view(&self) -> EventView {
        match *self {
            Event::Opened => EventView::Opened,
            Event::OpenFailed => EventView::OpenFailed,
            Event::ReadDone { data } => EventView::ReadDone { data: data@ },
            Event::ReadFailed => EventView::ReadFailed,
            Event::Written => EventView::Written,
            Event::WriteFailed => EventView::WriteFailed,
            Event::Finalized { archive } => EventView::Finalized { archive: archive@ },
            Event::FinalizeFailed => EventView::FinalizeFailed,
        }
    }
}

/// Which answer the packer waits for.
#[derive(Clone, Copy, PartialEq, Eq, Structural, Debug)]
pub enum Stage {
    Opening,
    Reading,
    Writing,
    Finalizing,
    Finished,
}

/// The packer as a value: the paths to pack in order, how many of them are
/// in the archive, and the answer that is awaited.
pub struct PackerView {
    pub paths: Seq<Seq<char>>,
    pub done: nat,
    pub stage: Stage,
}

/// While a file is worked on it is the first that is not yet in the archive;
/// the archive is ended only when all files are in it.
pub open spec fn well_formed(s: PackerView) -> bool {
    match s.stage {
        Stage::Opening | Stage::Reading | Stage::Writing => s.done < s.paths.len(),
        Stage::Finalizing => s.done == s.paths.len(),
        Stage::Finished => s.done <= s.paths.len(),
    }
}

/// Whether `event` answers the request that is pending in `s`.
pub open spec fn awaits(s: PackerView, event: EventView) -> bool {
    match s.stage {
        Stage::Opening => event is Opened || event is OpenFailed,
        Stage::Reading => event is ReadDone || event is ReadFailed,
        Stage::Writing => event is Written || event is WriteFailed,
        Stage::Finalizing => event is Finalized || event is FinalizeFailed,
        Stage::Finished => false,
    }
}

/// The state and the request once `done` files are in the archive: open the
/// next file, or end the archive when none is left.
pub open spec fn proceed(paths: Seq<Seq<char>>, done: nat) -> (PackerView, ActionView) {
    if done < paths.len() {
        (
            PackerView { paths, done, stage: Stage::Opening },
            ActionView::Open { path: paths[done as int] },
        )
    } else {
        (PackerView { paths, done, stage: Stage::Finalizing }, ActionView::Finalize)
    }
}

/// The state and the request at the start of the packing of `paths`.
pub open spec fn start(paths: Seq<Seq<char>>) -> (PackerView, ActionView) {
    proceed(paths, 0)
}

/// The state and the request after the packing ended with `result`.
pub open spec fn stop(s: PackerView, result: Result<Seq<u8>, ArchiveErrorView>) -> (
    PackerView,
    ActionView,
) {
    (PackerView { stage: Stage::Finished, ..s }, ActionView::Finish { result })
}

/// One step of the packing: the state and the request that follow `event`,
/// or `None` where `event` does not answer the pending request.
pub open spec fn step(s: PackerView, event: EventView) -> Option<(PackerView, ActionView)> {
    let path = s.paths[s.done as int];
    match (s.stage, event) {
        (Stage::Opening, EventView::Opened) => Some(
            (PackerView { stage: Stage::Reading, ..s }, ActionView::Read { path }),
        ),
        (Stage::Opening, EventView::OpenFailed) => Some(
            stop(s, Err(ArchiveErrorView::OpenFailed { path })),
        ),
        (Stage::Reading, EventView::ReadDone { data }) => Some(
            (
                PackerView { stage: Stage::Writing, ..s },
                ActionView::Write { name: path, method: Compression::Deflate, data },
            ),
        ),
        (Stage::Reading, EventView::ReadFailed) => Some(
            stop(s, Err(ArchiveErrorView::ReadFailed { path })),
        ),
        (Stage::Writing, EventView::Written) => Some(proceed(s.paths, s.done + 1)),
        (Stage::Writing, EventView::WriteFailed) => Some(
            stop(s, Err(ArchiveErrorView::WriteFailed { path })),
        ),
        (Stage::Finalizing, EventView::Finalized { archive }) => Some(stop(s, Ok(archive))),
        (Stage::Finalizing, EventView::FinalizeFailed) => Some(
            stop(s, Err(ArchiveErrorView::FinalizeFailed)),
        ),
        _ => None,
    }
}

/// A step is defined exactly for the events that answer the pending request.
pub proof fn lemma_step_defined(s: PackerView, event: EventView)
    ensures
        step(s, event) is Some <==> awaits(s, event),
{
}

/// The state of a packing between two requests.
#[derive(Debug)]
pub struct Packer {
    paths: Vec<String>,
    done: usize,
    stage: Stage,
}

impl View for Packer {
    type V = PackerView;

    closed spec fn view(&self) -> PackerView {
        PackerView { paths: texts(self.paths@), done: self.done as nat, stage: self.stage }
    }
}

impl Packer {
    #[verifier::type_invariant]
    closed spec fn inv(&self) -> bool {
        well_formed(self@)
    }

    /// The path of the file that is worked on.
    fn current(&self) -> (path: String)
        requires
            self.done < self.paths@.len(),
        ensures
            path@ == self@.paths[self@.done as int],
    {
        self.paths[self.done].clone()
    }

    /// Moves on once `self.done` files are in the archive.
    fn proceed(&mut self) -> (action: Action)
        requires
            old(self).done <= old(self).paths@.len(),
        ensures
            (final(self)@, action@) == proceed(old(self)@.paths, old(self)@.done),
            well_formed(final(self)@),
    {
        if self.done < self.paths.len() {
            self.stage = Stage::Opening;
            Action::Open { path: self.current() }
        } else {
            self.stage = Stage::Finalizing;
            Action::Finalize
        }
    }

    /// Ends the packing with `result`.
    fn stop(&mut self, result: Result<Vec<u8>, ArchiveError>) -> (action: Action)
        requires
            old(self).done <= old(self).paths@.len(),
        ensures
            (final(self)@, action@) == stop(
                old(self)@,
                match result {
                    Ok(archive) => Ok(archive@),
                    Err(e) => Err(e@),
                },
            ),
            well_formed(final(self)@),
    {
        self.stage = Stage::Finished;
        Action::Finish { result }
    }

    /// Tells whether `event` answers the pending request.
    pub fn expects(&self, event: &Event) -> (b: bool)
        ensures
            b == awaits(self@, event@),
    {
        match (self.stage, event) {
            (Stage::Opening, Event::Opened) => true,
            (Stage::Opening, Event::OpenFailed) => true,
            (Stage::Reading, Event::ReadDone { data }) => true,
            (Stage::Reading, Event::ReadFailed) => true,
            (Stage::Writing, Event::Written) => true,
            (Stage::Writing, Event::WriteFailed) => true,
            (Stage::Finalizing, Event::Finalized { archive }) => true,
            (Stage::Finalizing, Event::FinalizeFailed) => true,
            _ => false,
        }
    }

    /// Takes the event that answers the pending request, and names the next
    /// request. An event that does not answer the pending request is passed
    /// over: the packer stays as it is, and names no request.
    pub fn advance(&mut self, event: Event) -> (r: Option<Action>)
        ensures
            match step(old(self)@, event@) {
                Some((next, request)) => {
                    &&& final(self)@ == next
                    &&& r matches Some(action)
                    &&& action@ == request
                },
                None => final(self)@ == old(self)@ && r is None,
            },
    {
        proof {
            use_type_invariant(&*self);
        }
        if !self.expects(&event) {
            return None;
        }
        let action = match event {
            Event::Opened => {
                self.stage = Stage::Reading;
                Action::Read { path: self.current() }
            },
            Event::OpenFailed => {
                let path = self.current();
                self.stop(Err(ArchiveError::OpenFailed { path }))
            },
            Event::ReadDone { data } => {
                self.stage = Stage::Writing;
                Action::Write { name: self.current(), method: Compression::Deflate, data }
            },
            Event::ReadFailed => {
                let path = self.current();
                self.stop(Err(ArchiveError::ReadFailed { path }))
            },
            Event::Written => {
                assert(self.done < self.paths.len());
                self.stage = Stage::Finished;
                self.done = self.done + 1;
                self.proceed()
            },
            Event::WriteFailed => {
                let path = self.current();
                self.stop(Err(ArchiveError::WriteFailed { path }))
            },
            Event::Finalized { archive } => self.stop(Ok(archive)),
            Event::FinalizeFailed => self.stop(Err(ArchiveError::FinalizeFailed)),
        };
        Some(action)
    }

    /// How many files are in the archive.
    pub fn completed(&self) -> (n: usize)
        ensures
            n == self@.done,
    {
        self.done
    }

    /// How many files are to be packed.
    pub fn total(&self) -> (n: usize)
        ensures
            n == self@.paths.len(),
    {
        self.paths.len()
    }

    /// Tells whether the packing has ended.
    pub fn is_finished(&self) -> (b: bool)
        ensures
            b == (self@.stage == Stage::Finished),
    {
        self.stage == Stage::Finished
    }
}

/// Starts the packing of `paths`, in their order: gives the packer and its
/// first request.
pub fn pack(paths: &[String]) -> (r: (Packer, Action))
    ensures
        (r.0@, r.1@) == start(texts(paths@)),
{
    let mut copy: Vec<String> = Vec::new();
    let mut i: usize = 0;
    while i < paths.len()
        invariant
            i <= paths@.len(),
            texts(copy@) == texts(paths@.take(i as int)),
        decreases paths@.len() - i,
    {
        let ghost before = copy@;
        copy.push(paths[i].clone());
        assert(texts(copy@) =~= texts(before).push(paths@[i as int]@));
        assert(texts(paths@.take(i + 1)) =~= texts(paths@.take(i as int)).push(
            paths@[i as int]@,
        ));
        i += 1;
    }
    assert(paths@.take(paths@.len() as int) =~= paths@);
    let mut packer = Packer { paths: copy, done: 0, stage: Stage::Finished };
    let action = packer.proceed();
    (packer, action)
}

} // verus!
