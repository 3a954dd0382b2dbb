//! What holds of every run, proved from the model.

use crate::header::Verdict;
use crate::model::{advance, pending, settle, Stage, State};
use crate::protocol::{ActionView, EventView, Fault, Outcome, Remark};
use crate::relocate::{backup_folder, leftover_folder};
use vstd::prelude::*;

verus! {

/// Whether an operation on the file `name` of the walk's directory is
/// outstanding.
pub open spec fn handles_file(state: State, name: Seq<char>) -> bool {
    match state.stage {
        Stage::Reading { name: held } => held == name,
        Stage::Preparing { name: held, .. } => held == name,
        Stage::Copying { name: held, .. } => held == name,
        Stage::Securing { name: held } => held == name,
        Stage::Moving { name: held } => held == name,
        _ => false,
    }
}

/// Whether the news is of a kind that answers the operation outstanding in the
/// state.
pub open spec fn answers(state: State, event: EventView) -> bool {
    match state.stage {
        Stage::Listing | Stage::SweepListing => event is Entry || event is EndOfDirectory
            || event is Failed,
        Stage::Reading { .. } => event is Contents || event is Failed,
        Stage::Finished { .. } => false,
        _ => event is Done || event is Failed,
    }
}

/// A copy that does not succeed never ends the run, whether it was the folder or
/// the file that failed: the file is moved into the backup folder of its
/// directory instead, and the first thing asked for is that folder.
pub proof fn lemma_failed_copy_falls_back(state: State, name: Seq<char>)
    requires
        state.stage is Preparing || state.stage is Copying,
        handles_file(state, name),
    ensures
        advance(state, EventView::Failed).state == (State {
            dir: state.dir,
            stage: Stage::Securing { name },
        }),
        pending(advance(state, EventView::Failed).state) == (ActionView::EnsureDirectory {
            dir: state.dir.push(backup_folder()),
            recursive: false,
        }),
        advance(state, EventView::Failed).notice matches Some(notice) && notice.remark
            == Remark::CopyFailed && notice.file == state.dir.push(name),
{
}

/// Whichever way an operation on a copy ends, the run goes on.
pub proof fn lemma_copy_never_ends_run(state: State, event: EventView)
    requires
        state.stage is Preparing || state.stage is Copying,
        answers(state, event),
    ensures
        !(advance(state, event).state.stage is Finished),
{
}

/// A file without a readable header row is left alone: nothing is asked for it,
/// and the walk asks for the next entry of the same directory.
pub proof fn lemma_unreadable_file_is_left_alone(state: State, name: Seq<char>)
    requires
        state.stage == (Stage::Reading { name }),
    ensures
        settle(state, Verdict::Unreadable).state == (State {
            dir: state.dir,
            stage: Stage::Listing,
        }),
        advance(state, EventView::Failed) == settle(state, Verdict::Unreadable),
        pending(settle(state, Verdict::Unreadable).state) == (ActionView::NextEntry {
            dir: state.dir,
        }),
{
}

/// A file of no known kind is never copied: the next thing asked for is the
/// backup folder of its directory, and after that its move there.
pub proof fn lemma_unknown_file_is_moved_to_backups(state: State, name: Seq<char>)
    requires
        state.stage == (Stage::Reading { name }),
    ensures
        pending(settle(state, Verdict::Unknown).state) == (ActionView::EnsureDirectory {
            dir: state.dir.push(backup_folder()),
            recursive: false,
        }),
        pending(advance(settle(state, Verdict::Unknown).state, EventView::Done).state) == (
        ActionView::MoveFile {
            from: state.dir.push(name),
            to: state.dir.push(backup_folder()).push(name),
        }),
{
}

/// A run that a fitting piece of news ends was ended by a directory that could
/// not be listed, by a folder for moved files that could not be made, or by the
/// last entry of the sweep; no failure on a file itself ends a run.
pub proof fn lemma_what_ends_a_run(state: State, event: EventView)
    requires
        answers(state, event),
        advance(state, event).state.stage is Finished,
    ensures
        advance(state, event).state.stage == (Stage::Finished {
            outcome: if event is Failed {
                if state.stage is Securing || state.stage is SweepPreparing {
                    Outcome::Fatal(Fault::DirectoryNotCreated)
                } else {
                    Outcome::Fatal(Fault::DirectoryUnreadable)
                }
            } else {
                Outcome::Completed
            },
        }),
        event is Failed ==> state.stage is Opening || state.stage is Listing || state.stage
            is Securing || state.stage is SweepPreparing || state.stage is SweepOpening
            || state.stage is SweepListing,
        !(event is Failed) ==> state.stage is SweepListing && event is EndOfDirectory,
{
}

/// Once a run is over, no news changes anything or has anything to tell.
pub proof fn lemma_finished_stays_finished(state: State, event: EventView)
    requires
        state.stage is Finished,
    ensures
        advance(state, event).state == state,
        advance(state, event).notice is None,
{
}

/// News that answers no operation asked for ends the run, and says so.
pub proof fn lemma_unexpected_news_ends_run(state: State, event: EventView)
    requires
        !(state.stage is Finished),
        !answers(state, event),
    ensures
        advance(state, event).state.stage == (Stage::Finished {
            outcome: Outcome::Fatal(Fault::UnexpectedEvent),
        }),
{
}

/// The sweep looks at the scanned directory alone: whatever it asks to move lies
/// directly in that directory and goes into its leftover folder, under the same
/// name.
pub proof fn lemma_sweep_stays_on_top(state: State)
    requires
        state.stage is SweepPreparing || state.stage is SweepOpening || state.stage
            is SweepListing || state.stage is SweepMoving,
    ensures
        match pending(state) {
            ActionView::EnsureDirectory { dir, recursive } => dir == seq![leftover_folder()]
                && !recursive,
            ActionView::OpenDirectory { dir } => dir.len() == 0,
            ActionView::NextEntry { dir } => dir.len() == 0,
            ActionView::MoveFile { from, to } => from.len() == 1 && to == seq![
                leftover_folder(),
                from[0],
            ],
            _ => false,
        },
{
    match pending(state) {
        ActionView::EnsureDirectory { dir, recursive } => {
            assert(dir =~= seq![leftover_folder()]);
        },
        ActionView::MoveFile { from, to } => {
            assert(to =~= seq![leftover_folder(), from[0]]);
        },
        _ => {},
    }
}

/// The walk never leaves the tree: at the end of a directory below the scanned
/// one it is back in the directory above and asks for that directory's next
/// entry, and only at the end of the scanned directory itself does the sweep
/// begin.
pub proof fn lemma_end_of_directory(state: State)
    requires
        state.stage is Listing,
    ensures
        state.dir.len() > 0 ==> advance(state, EventView::EndOfDirectory).state == (State {
            dir: state.dir.drop_last(),
            stage: Stage::Listing,
        }),
        state.dir.len() == 0 ==> advance(state, EventView::EndOfDirectory).state == (State {
            dir: state.dir,
            stage: Stage::SweepPreparing,
        }),
{
}

} // verus!
