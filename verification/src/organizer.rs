//! The organizer itself: it is told how each operation went and says what to do
//! next, and never touches a file.

use crate::classify::FileType;
use crate::header::{inspect, Verdict};
use crate::location::{has_csv_extension, Location};
use crate::model;
use crate::model::{Stage, State, Turn};
use crate::protocol::{
    Action, EntryKind, Event, Fault, Notice, Outcome, Remark, Step, StepView,
};
use crate::relocate::{copy_file, move_leftover, move_to_uncategorized};
use vstd::prelude::*;

verus! {

/// What the organizer is waiting for; `model::Stage` with the names held as
/// strings.
enum Progress {
    Opening,
    Listing,
    Reading { name: String },
    Preparing { name: String, category: FileType },
    Copying { name: String, category: FileType },
    Securing { name: String },
    Moving { name: String },
    SweepPreparing,
    SweepOpening,
    SweepListing,
    SweepMoving { name: String },
    Finished { outcome: Outcome },
}

impl View for Progress {
    type V = Stage;

    closed spec fn view(&self) -> Stage {
        match *self {
            Progress::Opening => Stage::Opening,
            Progress::Listing => Stage::Listing,
            Progress::Reading { name } => Stage::Reading { name: name@ },
            Progress::Preparing { name, category } => Stage::Preparing { name: name@, category },
            Progress::Copying { name, category } => Stage::Copying { name: name@, category },
            Progress::Securing { name } => Stage::Securing { name: name@ },
            Progress::Moving { name } => Stage::Moving { name: name@ },
            Progress::SweepPreparing => Stage::SweepPreparing,
            Progress::SweepOpening => Stage::SweepOpening,
            Progress::SweepListing => Stage::SweepListing,
            Progress::SweepMoving { name } => Stage::SweepMoving { name: name@ },
            Progress::Finished { outcome } => Stage::Finished { outcome },
        }
    }
}

/// One run over a directory tree, from the first listing to the last move.
pub struct Organizer {
    dir: Location,
    progress: Progress,
}

impl View for Organizer {
    type V = State;

    closed spec fn view(&self) -> State {
        State { dir: self.dir@, stage: self.progress@ }
    }
}

/// A state and a notice put together as the model has them.
pub open spec fn turn(state: State, notice: Option<Notice>) -> Turn {
    Turn {
        state,
        notice: match notice {
            Some(notice) => Some(notice@),
            None => None,
        },
    }
}

impl Organizer {
    /// Starts a run. `root_is_directory` says whether the path to scan leads to a
    /// directory.
    pub fn new(root_is_directory: bool) -> (organizer: Organizer)
        ensures
            organizer@ == model::initial(root_is_directory),
    {
        Organizer {
            dir: Location::root(),
            progress: if root_is_directory {
                Progress::Opening
            } else {
                Progress::SweepPreparing
            },
        }
    }

    /// The operation that the organizer is waiting for; at the end of the run,
    /// how it ended.
    pub fn request(&self) -> (action: Action)
        ensures
            action@ == model::pending(self@),
    {
        match &self.progress {
            Progress::Opening => Action::OpenDirectory { dir: self.dir.clone() },
            Progress::Listing => Action::NextEntry { dir: self.dir.clone() },
            Progress::Reading { name } => Action::ReadFile { file: self.dir.join(name.as_str()) },
            Progress::Preparing { name, category } => {
                let plan = copy_file(&self.file(name.as_str()), category.directory());
                Action::EnsureDirectory { dir: plan.directory, recursive: true }
            },
            Progress::Copying { name, category } => {
                let plan = copy_file(&self.file(name.as_str()), category.directory());
                Action::CopyFile { from: plan.from, to: plan.to }
            },
            Progress::Securing { name } => {
                let plan = move_to_uncategorized(&self.file(name.as_str()));
                Action::EnsureDirectory { dir: plan.directory, recursive: false }
            },
            Progress::Moving { name } => {
                let plan = move_to_uncategorized(&self.file(name.as_str()));
                Action::MoveFile { from: plan.from, to: plan.to }
            },
            Progress::SweepPreparing => Action::EnsureDirectory {
                dir: Location::root().join("Uncategorized"),
                recursive: false,
            },
            Progress::SweepOpening => Action::OpenDirectory { dir: Location::root() },
            Progress::SweepListing => Action::NextEntry { dir: Location::root() },
            Progress::SweepMoving { name } => {
                let plan = move_leftover(&leftover(name.as_str()));
                Action::MoveFile { from: plan.from, to: plan.to }
            },
            Progress::Finished { outcome } => Action::Finish { outcome: *outcome },
        }
    }

    /// How the run ended, once it has.
    pub fn outcome(&self) -> (outcome: Option<Outcome>)
        ensures
            outcome == match self@.stage {
                Stage::Finished { outcome } => Some(outcome),
                _ => None,
            },
    {
        match &self.progress {
            Progress::Finished { outcome } => Some(*outcome),
            _ => None,
        }
    }

    /// Takes the news of how the operation last asked for went, and says what to
    /// tell the user and what to do next.
    pub fn step(&mut self, event: Event) -> (step: Step)
        ensures
            final(self)@ == model::advance(old(self)@, event@).state,
            step@ == (StepView {
                notice: model::advance(old(self)@, event@).notice,
                action: model::pending(final(self)@),
            }),
    {
        let notice = match &self.progress {
            Progress::Opening | Progress::Listing => self.visit_dirs(event),
            Progress::Reading { .. }
            | Progress::Preparing { .. }
            | Progress::Copying { .. }
            | Progress::Securing { .. }
            | Progress::Moving { .. } => self.organize_file(event),
            Progress::SweepPreparing
            | Progress::SweepOpening
            | Progress::SweepListing
            | Progress::SweepMoving { .. } => self.move_remaining_files(event),
            Progress::Finished { .. } => None,
        };
        Step { notice, action: self.request() }
    }

    /// Takes the verdict on the file whose bytes were asked for, in place of the
    /// bytes, and says what to tell the user and what to do next.
    pub fn decide(&mut self, verdict: Verdict) -> (step: Step)
        ensures
            final(self)@ == model::settle(old(self)@, verdict).state,
            step@ == (StepView {
                notice: model::settle(old(self)@, verdict).notice,
                action: model::pending(final(self)@),
            }),
    {
        let notice = self.settle(verdict);
        Step { notice, action: self.request() }
    }

    /// The file `name` of the directory that the walk is in.
    fn file(&self, name: &str) -> (file: Location)
        ensures
            file@ == self@.dir.push(name@),
            file@.len() > 0,
            file@.drop_last() == self@.dir,
            file@.last() == name@,
    {
        let file = self.dir.join(name);
        assert(file@.drop_last() =~= self@.dir);
        file
    }

    /// Goes on to `progress` in the same directory, with nothing to tell.
    fn proceed(&mut self, progress: Progress) -> (notice: Option<Notice>)
        ensures
            turn(final(self)@, notice) == model::proceed(old(self)@, progress@),
    {
        self.progress = progress;
        None
    }

    /// Goes on to `progress` in the same directory, with a remark on the file
    /// `name` of that directory.
    fn proceed_noting(&mut self, progress: Progress, remark: Remark, name: &str) -> (notice:
        Option<Notice>)
        ensures
            turn(final(self)@, notice) == model::proceed_noting(
                old(self)@,
                progress@,
                remark,
                name@,
            ),
    {
        self.progress = progress;
        Some(Notice { remark, file: self.dir.join(name) })
    }

    /// Gives the run up.
    fn halt(&mut self, fault: Fault) -> (notice: Option<Notice>)
        ensures
            turn(final(self)@, notice) == model::halt(old(self)@, fault),
    {
        self.proceed(Progress::Finished { outcome: Outcome::Fatal(fault) })
    }

    /// The walk: takes the news of the directory that is being listed.
    fn visit_dirs(&mut self, event: Event) -> (notice: Option<Notice>)
        ensures
            turn(final(self)@, notice) == model::visit_dirs(old(self)@, event@),
    {
        match &self.progress {
            Progress::Opening => match event {
                Event::Done => self.proceed(Progress::Listing),
                Event::Failed => self.halt(Fault::DirectoryUnreadable),
                _ => self.halt(Fault::UnexpectedEvent),
            },
            Progress::Listing => match event {
                Event::Entry(entry) => match entry.kind {
                    EntryKind::Directory => {
                        self.dir.enter(entry.name);
                        self.progress = Progress::Opening;
                        None
                    },
                    _ => self.meet_file(entry.name),
                },
                Event::EndOfDirectory => if self.dir.is_root() {
                    self.proceed(Progress::SweepPreparing)
                } else {
                    self.dir.leave();
                    self.progress = Progress::Listing;
                    None
                },
                Event::Failed => self.halt(Fault::DirectoryUnreadable),
                _ => self.halt(Fault::UnexpectedEvent),
            },
            _ => self.halt(Fault::UnexpectedEvent),
        }
    }

    /// The walk comes upon the file `name`.
    fn meet_file(&mut self, name: String) -> (notice: Option<Notice>)
        ensures
            turn(final(self)@, notice) == model::meet_file(old(self)@, name@),
    {
        let progress = if has_csv_extension(name.as_str()) {
            Progress::Reading { name: name.clone() }
        } else {
            Progress::Listing
        };
        self.proceed_noting(progress, Remark::Processing, name.as_str())
    }

    /// Takes the verdict on the file that is being read.
    fn settle(&mut self, verdict: Verdict) -> (notice: Option<Notice>)
        ensures
            turn(final(self)@, notice) == model::settle(old(self)@, verdict),
    {
        match &self.progress {
            Progress::Reading { name } => {
                let name = name.clone();
                match verdict {
                    Verdict::Known(category) => self.proceed(
                        Progress::Preparing { name, category },
                    ),
                    Verdict::Unknown => self.proceed_noting(
                        Progress::Securing { name: name.clone() },
                        Remark::UnknownType,
                        name.as_str(),
                    ),
                    Verdict::Unreadable => self.proceed_noting(
                        Progress::Listing,
                        Remark::HeadersUnreadable,
                        name.as_str(),
                    ),
                }
            },
            _ => self.halt(Fault::UnexpectedEvent),
        }
    }

    /// One file: takes the news of the operation on it that was asked for.
    fn organize_file(&mut self, event: Event) -> (notice: Option<Notice>)
        ensures
            turn(final(self)@, notice) == model::organize_file(old(self)@, event@),
    {
        match &self.progress {
            Progress::Reading { .. } => match event {
                Event::Contents(data) => {
                    let verdict = inspect(data.as_slice());
                    self.settle(verdict)
                },
                Event::Failed => self.settle(Verdict::Unreadable),
                _ => self.halt(Fault::UnexpectedEvent),
            },
            Progress::Preparing { name, category } => {
                let name = name.clone();
                let category = *category;
                match event {
                    Event::Done => self.proceed(Progress::Copying { name, category }),
                    Event::Failed => self.proceed_noting(
                        Progress::Securing { name: name.clone() },
                        Remark::CopyFailed,
                        name.as_str(),
                    ),
                    _ => self.halt(Fault::UnexpectedEvent),
                }
            },
            Progress::Copying { name, .. } => {
                let name = name.clone();
                match event {
                    Event::Done => self.proceed(Progress::Listing),
                    Event::Failed => self.proceed_noting(
                        Progress::Securing { name: name.clone() },
                        Remark::CopyFailed,
                        name.as_str(),
                    ),
                    _ => self.halt(Fault::UnexpectedEvent),
                }
            },
            Progress::Securing { name } => {
                let name = name.clone();
                match event {
                    Event::Done => self.proceed(Progress::Moving { name }),
                    Event::Failed => self.halt(Fault::DirectoryNotCreated),
                    _ => self.halt(Fault::UnexpectedEvent),
                }
            },
            Progress::Moving { name } => {
                let name = name.clone();
                match event {
                    Event::Done => self.proceed(Progress::Listing),
                    Event::Failed => self.proceed_noting(
                        Progress::Listing,
                        Remark::MoveFailed,
                        name.as_str(),
                    ),
                    _ => self.halt(Fault::UnexpectedEvent),
                }
            },
            _ => self.halt(Fault::UnexpectedEvent),
        }
    }

    /// The sweep: takes the news of the operation that it asked for.
    fn move_remaining_files(&mut self, event: Event) -> (notice: Option<Notice>)
        ensures
            turn(final(self)@, notice) == model::move_remaining_files(old(self)@, event@),
    {
        match &self.progress {
            Progress::SweepPreparing => match event {
                Event::Done => self.proceed(Progress::SweepOpening),
                Event::Failed => self.halt(Fault::DirectoryNotCreated),
                _ => self.halt(Fault::UnexpectedEvent),
            },
            Progress::SweepOpening => match event {
                Event::Done => self.proceed(Progress::SweepListing),
                Event::Failed => self.halt(Fault::DirectoryUnreadable),
                _ => self.halt(Fault::UnexpectedEvent),
            },
            Progress::SweepListing => match event {
                Event::Entry(entry) => {
                    let is_file = match entry.kind {
                        EntryKind::File => true,
                        _ => false,
                    };
                    if is_file && has_csv_extension(entry.name.as_str()) {
                        self.proceed(Progress::SweepMoving { name: entry.name })
                    } else {
                        self.proceed(Progress::SweepListing)
                    }
                },
                Event::EndOfDirectory => self.proceed(
                    Progress::Finished { outcome: Outcome::Completed },
                ),
                Event::Failed => self.halt(Fault::DirectoryUnreadable),
                _ => self.halt(Fault::UnexpectedEvent),
            },
            Progress::SweepMoving { name } => {
                let file = leftover(name.as_str());
                match event {
                    Event::Done => self.proceed(Progress::SweepListing),
                    Event::Failed => {
                        self.progress = Progress::SweepListing;
                        Some(Notice { remark: Remark::MoveFailed, file })
                    },
                    _ => self.halt(Fault::UnexpectedEvent),
                }
            },
            _ => self.halt(Fault::UnexpectedEvent),
        }
    }
}

/// The file `name` of the scanned directory itself.
fn leftover(name: &str) -> (file: Location)
    ensures
        file@ == Seq::<Seq<char>>::empty().push(name@),
        file@.len() > 0,
        file@.drop_last() == Seq::<Seq<char>>::empty(),
        file@.last() == name@,
{
    let file = Location::root().join(name);
    assert(file@.drop_last() =~= Seq::<Seq<char>>::empty());
    file
}

} // verus!
