//! The organizer as mathematics: its states, and what each piece of news makes
//! of a state.

use crate::classify::FileType;
use crate::header::{verdict_of, Verdict};
use crate::location::is_csv_name;
use crate::protocol::{ActionView, EntryKind, EventView, Fault, NoticeView, Outcome, Remark};
use crate::relocate::{backup_folder, leftover_folder, relocation};
use vstd::prelude::*;

verus! {

/// What the organizer is waiting for. Each stage but the last has one operation
/// outstanding; `pending` says which.
pub enum Stage {
    /// The walk has asked to open the current directory.
    Opening,
    /// The walk has asked for the next entry of the current directory.
    Listing,
    /// The bytes of a CSV file of the current directory were asked for.
    Reading { name: Seq<char> },
    /// The folder of the file's kind is being made.
    Preparing { name: Seq<char>, category: FileType },
    /// The file is being copied into the folder of its kind.
    Copying { name: Seq<char>, category: FileType },
    /// The backup folder is being made.
    Securing { name: Seq<char> },
    /// The file is being moved into the backup folder.
    Moving { name: Seq<char> },
    /// The walk is over; the leftover folder is being made.
    SweepPreparing,
    /// The sweep has asked to open the scanned directory.
    SweepOpening,
    /// The sweep has asked for the next entry of the scanned directory.
    SweepListing,
    /// A leftover file is being moved into the leftover folder.
    SweepMoving { name: Seq<char> },
    /// The run is over.
    Finished { outcome: Outcome },
}

/// A state of the organizer: the directory that the walk is in, from the scanned
/// directory down, and the stage.
pub struct State {
    pub dir: Seq<Seq<char>>,
    pub stage: Stage,
}

/// A state and what there is to tell the user on reaching it.
pub struct Turn {
    pub state: State,
    pub notice: Option<NoticeView>,
}

/// The state in which a run starts. Where the scanned directory is none, there is
/// no walk, and the sweep is left to find that out.
pub open spec fn initial(root_is_directory: bool) -> State {
    State {
        dir: Seq::empty(),
        stage: if root_is_directory {
            Stage::Opening
        } else {
            Stage::SweepPreparing
        },
    }
}

/// The operation that is outstanding in a state.
pub open spec fn pending(state: State) -> ActionView {
    match state.stage {
        Stage::Opening => ActionView::OpenDirectory { dir: state.dir },
        Stage::Listing => ActionView::NextEntry { dir: state.dir },
        Stage::Reading { name } => ActionView::ReadFile { file: state.dir.push(name) },
        Stage::Preparing { name, category } => ActionView::EnsureDirectory {
            dir: relocation(state.dir, name, category.directory_name()).directory,
            recursive: true,
        },
        Stage::Copying { name, category } => ActionView::CopyFile {
            from: relocation(state.dir, name, category.directory_name()).from,
            to: relocation(state.dir, name, category.directory_name()).to,
        },
        Stage::Securing { name } => ActionView::EnsureDirectory {
            dir: relocation(state.dir, name, backup_folder()).directory,
            recursive: false,
        },
        Stage::Moving { name } => ActionView::MoveFile {
            from: relocation(state.dir, name, backup_folder()).from,
            to: relocation(state.dir, name, backup_folder()).to,
        },
        Stage::SweepPreparing => ActionView::EnsureDirectory {
            dir: Seq::<Seq<char>>::empty().push(leftover_folder()),
            recursive: false,
        },
        Stage::SweepOpening => ActionView::OpenDirectory { dir: Seq::empty() },
        Stage::SweepListing => ActionView::NextEntry { dir: Seq::empty() },
        Stage::SweepMoving { name } => ActionView::MoveFile {
            from: relocation(Seq::empty(), name, leftover_folder()).from,
            to: relocation(Seq::empty(), name, leftover_folder()).to,
        },
        Stage::Finished { outcome } => ActionView::Finish { outcome },
    }
}

/// Going on to `stage` in the same directory, with nothing to tell.
pub open spec fn proceed(state: State, stage: Stage) -> Turn {
    Turn { state: State { dir: state.dir, stage }, notice: None }
}

/// Going on to `stage` in the same directory, with a remark on the file `name` of
/// that directory.
pub open spec fn proceed_noting(state: State, stage: Stage, remark: Remark, name: Seq<char>)
    -> Turn {
    Turn {
        state: State { dir: state.dir, stage },
        notice: Some(NoticeView { remark, file: state.dir.push(name) }),
    }
}

/// Giving the run up.
pub open spec fn halt(state: State, fault: Fault) -> Turn {
    proceed(state, Stage::Finished { outcome: Outcome::Fatal(fault) })
}

/// The walk: what news of the directory being listed leads to. A directory among
/// the entries is gone into at once, before the entries that follow it; any other
/// entry is a file to look at; at the end of a directory the walk is back in the
/// one above, and at the end of the scanned directory it is over. A directory
/// that cannot be listed ends the run.
pub open spec fn visit_dirs(state: State, event: EventView) -> Turn {
    match state.stage {
        Stage::Opening => match event {
            EventView::Done => proceed(state, Stage::Listing),
            EventView::Failed => halt(state, Fault::DirectoryUnreadable),
            _ => halt(state, Fault::UnexpectedEvent),
        },
        Stage::Listing => match event {
            EventView::Entry(entry) => if entry.kind == EntryKind::Directory {
                Turn {
                    state: State { dir: state.dir.push(entry.name), stage: Stage::Opening },
                    notice: None,
                }
            } else {
                meet_file(state, entry.name)
            },
            EventView::EndOfDirectory => if state.dir.len() == 0 {
                proceed(state, Stage::SweepPreparing)
            } else {
                Turn {
                    state: State { dir: state.dir.drop_last(), stage: Stage::Listing },
                    notice: None,
                }
            },
            EventView::Failed => halt(state, Fault::DirectoryUnreadable),
            _ => halt(state, Fault::UnexpectedEvent),
        },
        _ => halt(state, Fault::UnexpectedEvent),
    }
}

/// The walk comes upon the file `name`: a CSV file is read, any other is passed
/// over.
pub open spec fn meet_file(state: State, name: Seq<char>) -> Turn {
    proceed_noting(
        state,
        if is_csv_name(name) {
            Stage::Reading { name }
        } else {
            Stage::Listing
        },
        Remark::Processing,
        name,
    )
}

/// What the verdict on the file that is being read leads to: a file of a known
/// kind is copied into the folder of that kind, one of no known kind is moved into
/// the backup folder, and one without a readable header row is left alone.
pub open spec fn settle(state: State, verdict: Verdict) -> Turn {
    match state.stage {
        Stage::Reading { name } => match verdict {
            Verdict::Known(category) => proceed(state, Stage::Preparing { name, category }),
            Verdict::Unknown => proceed_noting(
                state,
                Stage::Securing { name },
                Remark::UnknownType,
                name,
            ),
            Verdict::Unreadable => proceed_noting(
                state,
                Stage::Listing,
                Remark::HeadersUnreadable,
                name,
            ),
        },
        _ => halt(state, Fault::UnexpectedEvent),
    }
}

/// One file: what news of the operations on it leads to. A file that cannot be
/// read is left alone. A copy that fails, at the folder or at the file, is made
/// up for by a move into the backup folder. If that folder cannot be made the
/// run ends; if the move fails the file stays where it is. In every other case
/// the walk goes on.
pub open spec fn organize_file(state: State, event: EventView) -> Turn {
    match state.stage {
        Stage::Reading { .. } => match event {
            EventView::Contents(data) => settle(state, verdict_of(data)),
            EventView::Failed => settle(state, Verdict::Unreadable),
            _ => halt(state, Fault::UnexpectedEvent),
        },
        Stage::Preparing { name, category } => match event {
            EventView::Done => proceed(state, Stage::Copying { name, category }),
            EventView::Failed => proceed_noting(
                state,
                Stage::Securing { name },
                Remark::CopyFailed,
                name,
            ),
            _ => halt(state, Fault::UnexpectedEvent),
        },
        Stage::Copying { name, .. } => match event {
            EventView::Done => proceed(state, Stage::Listing),
            EventView::Failed => proceed_noting(
                state,
                Stage::Securing { name },
                Remark::CopyFailed,
                name,
            ),
            _ => halt(state, Fault::UnexpectedEvent),
        },
        Stage::Securing { name } => match event {
            EventView::Done => proceed(state, Stage::Moving { name }),
            EventView::Failed => halt(state, Fault::DirectoryNotCreated),
            _ => halt(state, Fault::UnexpectedEvent),
        },
        Stage::Moving { name } => match event {
            EventView::Done => proceed(state, Stage::Listing),
            EventView::Failed => proceed_noting(state, Stage::Listing, Remark::MoveFailed, name),
            _ => halt(state, Fault::UnexpectedEvent),
        },
        _ => halt(state, Fault::UnexpectedEvent),
    }
}

/// The sweep: what news of it leads to. Each CSV file among the entries of the
/// scanned directory itself is moved into the leftover folder; a move that fails
/// is remarked on and the sweep goes on. If the folder cannot be made or the
/// directory cannot be listed the run ends.
pub open spec fn move_remaining_files(state: State, event: EventView) -> Turn {
    match state.stage {
        Stage::SweepPreparing => match event {
            EventView::Done => proceed(state, Stage::SweepOpening),
            EventView::Failed => halt(state, Fault::DirectoryNotCreated),
            _ => halt(state, Fault::UnexpectedEvent),
        },
        Stage::SweepOpening => match event {
            EventView::Done => proceed(state, Stage::SweepListing),
            EventView::Failed => halt(state, Fault::DirectoryUnreadable),
            _ => halt(state, Fault::UnexpectedEvent),
        },
        Stage::SweepListing => match event {
            EventView::Entry(entry) => if entry.kind == EntryKind::File && is_csv_name(
                entry.name,
            ) {
                proceed(state, Stage::SweepMoving { name: entry.name })
            } else {
                proceed(state, Stage::SweepListing)
            },
            EventView::EndOfDirectory => proceed(
                state,
                Stage::Finished { outcome: Outcome::Completed },
            ),
            EventView::Failed => halt(state, Fault::DirectoryUnreadable),
            _ => halt(state, Fault::UnexpectedEvent),
        },
        Stage::SweepMoving { name } => match event {
            EventView::Done => proceed(state, Stage::SweepListing),
            EventView::Failed => Turn {
                state: State { dir: state.dir, stage: Stage::SweepListing },
                notice: Some(
                    NoticeView {
                        remark: Remark::MoveFailed,
                        file: relocation(Seq::empty(), name, leftover_folder()).from,
                    },
                ),
            },
            _ => halt(state, Fault::UnexpectedEvent),
        },
        _ => halt(state, Fault::UnexpectedEvent),
    }
}

/// What a piece of news makes of a state. Once the run is over, nothing changes
/// any more.
pub open spec fn advance(state: State, event: EventView) -> Turn {
    match state.stage {
        Stage::Opening | Stage::Listing => visit_dirs(state, event),
        Stage::Reading { .. }
        | Stage::Preparing { .. }
        | Stage::Copying { .. }
        | Stage::Securing { .. }
        | Stage::Moving { .. } => organize_file(state, event),
        Stage::SweepPreparing
        | Stage::SweepOpening
        | Stage::SweepListing
        | Stage::SweepMoving { .. } => move_remaining_files(state, event),
        Stage::Finished { .. } => Turn { state, notice: None },
    }
}

} // verus!
