//! What passes between the organizer and its caller: the operations it asks for,
//! and the news of how each went.

use crate::location::Location;
use vstd::prelude::*;

verus! {

/// What an entry of a directory is, links followed.
#[derive(Clone, Copy, Debug, PartialEq, Eq, Structural)]
pub enum EntryKind {
    Directory,
    File,
    /// Neither: a link that leads nowhere, a device, a socket.
    Other,
}

/// One entry of a directory.
#[derive(Debug, PartialEq, Eq)]
pub struct Entry {
    pub name: String,
    pub kind: EntryKind,
}

/// An `Entry` as contracts see it.
pub struct EntryView {
    pub name: Seq<char>,
    pub kind: EntryKind,
}

impl View for Entry {
    type V = EntryView;

    open spec fn view(&self) -> EntryView {
        EntryView { name: self.name@, kind: self.kind }
    }
}

/// How the operation that was asked for went.
#[derive(Debug, PartialEq, Eq)]
pub enum Event {
    /// It was carried out.
    Done,
    /// It could not be carried out.
    Failed,
    /// The directory has this entry next.
    Entry(Entry),
    /// The directory has no further entry.
    EndOfDirectory,
    /// The file holds these bytes.
    Contents(Vec<u8>),
}

/// An `Event` as contracts see it.
pub enum EventView {
    Done,
    Failed,
    Entry(EntryView),
    EndOfDirectory,
    Contents(Seq<u8>),
}

impl View for Event {
    type V = EventView;

    open spec fn view(&self) -> EventView {
        match *self {
            Event::Done => EventView::Done,
            Event::Failed => EventView::Failed,
            Event::Entry(entry) => EventView::Entry(entry@),
            Event::EndOfDirectory => EventView::EndOfDirectory,
            Event::Contents(data) => EventView::Contents(data@),
        }
    }
}

/// Why a run was given up.
#[derive(Clone, Copy, Debug, PartialEq, Eq, Structural)]
pub enum Fault {
    /// A directory could not be listed.
    DirectoryUnreadable,
    /// A folder for files that are moved out of the way could not be made.
    DirectoryNotCreated,
    /// The caller sent news that answers no operation asked of it.
    UnexpectedEvent,
}

/// How a run ended.
#[derive(Clone, Copy, Debug, PartialEq, Eq, Structural)]
pub enum Outcome {
    Completed,
    Fatal(Fault),
}

/// One operation on the file system, or the end of the run. Every location is
/// given from the scanned directory down.
#[derive(Debug, PartialEq, Eq)]
pub enum Action {
    /// Start listing the directory. Answered by `Done` or `Failed`.
    OpenDirectory { dir: Location },
    /// Give the next entry of the directory, which was opened before and is the
    /// one opened last among those not yet at their end. Answered by `Entry`,
    /// `EndOfDirectory` or `Failed`.
    NextEntry { dir: Location },
    /// Give the bytes of the file. Answered by `Contents` or `Failed`.
    ReadFile { file: Location },
    /// Make the directory unless something of that name is there; where
    /// `recursive` is set, with every directory that leads to it. Answered by
    /// `Done` or `Failed`.
    EnsureDirectory { dir: Location, recursive: bool },
    /// Copy the file, over whatever is at `to`. Answered by `Done` or `Failed`.
    CopyFile { from: Location, to: Location },
    /// Move the file, over whatever is at `to`. Answered by `Done` or `Failed`.
    MoveFile { from: Location, to: Location },
    /// Nothing more is to be done.
    Finish { outcome: Outcome },
}

/// An `Action` as contracts see it.
pub enum ActionView {
    OpenDirectory { dir: Seq<Seq<char>> },
    NextEntry { dir: Seq<Seq<char>> },
    ReadFile { file: Seq<Seq<char>> },
    EnsureDirectory { dir: Seq<Seq<char>>, recursive: bool },
    CopyFile { from: Seq<Seq<char>>, to: Seq<Seq<char>> },
    MoveFile { from: Seq<Seq<char>>, to: Seq<Seq<char>> },
    Finish { outcome: Outcome },
}

impl View for Action {
    type V = ActionView;

    open spec fn view(&self) -> ActionView {
        match *self {
            Action::OpenDirectory { dir } => ActionView::OpenDirectory { dir: dir@ },
            Action::NextEntry { dir } => ActionView::NextEntry { dir: dir@ },
            Action::ReadFile { file } => ActionView::ReadFile { file: file@ },
            Action::EnsureDirectory { dir, recursive } => ActionView::EnsureDirectory {
                dir: dir@,
                recursive,
            },
            Action::CopyFile { from, to } => ActionView::CopyFile { from: from@, to: to@ },
            Action::MoveFile { from, to } => ActionView::MoveFile { from: from@, to: to@ },
            Action::Finish { outcome } => ActionView::Finish { outcome },
        }
    }
}

/// What there is to tell the user about a file.
#[derive(Clone, Copy, Debug, PartialEq, Eq, Structural)]
pub enum Remark {
    /// The file is being looked at.
    Processing,
    /// Its header row could not be read; the file is left as it is.
    HeadersUnreadable,
    /// Its header row marks no known kind of file; it is moved out of the way.
    UnknownType,
    /// It could not be copied into the folder of its kind; it is moved out of the
    /// way.
    CopyFailed,
    /// It could not be moved; it is left as it is.
    MoveFailed,
}

/// A remark on one file.
#[derive(Debug, PartialEq, Eq)]
pub struct Notice {
    pub remark: Remark,
    pub file: Location,
}

/// A `Notice` as contracts see it.
pub struct NoticeView {
    pub remark: Remark,
    pub file: Seq<Seq<char>>,
}

impl View for Notice {
    type V = NoticeView;

    open spec fn view(&self) -> NoticeView {
        NoticeView { remark: self.remark, file: self.file@ }
    }
}

/// What the organizer hands its caller after each piece of news: what to tell the
/// user, if anything, and what to do next.
#[derive(Debug, PartialEq, Eq)]
pub struct Step {
    pub notice: Option<Notice>,
    pub action: Action,
}

/// A `Step` as contracts see it.
pub struct StepView {
    pub notice: Option<NoticeView>,
    pub action: ActionView,
}

impl View for Step {
    type V = StepView;

    open spec fn view(&self) -> StepView {
        StepView {
            notice: match self.notice {
                Some(notice) => Some(notice@),
                None => None,
            },
            action: self.action@,
        }
    }
}

} // verus!
