//! The sweep as a whole: of the entries of the scanned directory itself, the CSV
//! files are moved into the leftover folder, one after the other, and nothing
//! else is touched.

use crate::location::is_csv_name;
use crate::model::{advance, pending, Stage, State};
use crate::protocol::{ActionView, EntryKind, EntryView, EventView, Outcome};
use crate::relocate::leftover_folder;
use crate::walk::{lemma_run_in_two_parts, run};
use vstd::prelude::*;

verus! {

/// One entry of the scanned directory as the sweep finds it.
pub struct Leftover {
    pub name: Seq<char>,
    pub kind: EntryKind,
    /// Whether the entry can be moved; it matters only where the sweep tries.
    pub movable: bool,
}

/// Whether the sweep moves an entry: it does so for the files with a CSV name.
pub open spec fn is_swept(entry: Leftover) -> bool {
    entry.kind == EntryKind::File && is_csv_name(entry.name)
}

/// The state in which the sweep asks for the next entry.
pub open spec fn sweeping(dir: Seq<Seq<char>>) -> State {
    State { dir, stage: Stage::SweepListing }
}

/// The news that the caller gives of one entry.
pub open spec fn news_of_leftover(entry: Leftover) -> Seq<EventView> {
    let met = seq![EventView::Entry(EntryView { name: entry.name, kind: entry.kind })];
    if is_swept(entry) {
        met.push(
            if entry.movable {
                EventView::Done
            } else {
                EventView::Failed
            },
        )
    } else {
        met
    }
}

/// The news that the caller gives while the sweep goes through the entries, up
/// to but not including the end of the directory.
pub open spec fn news_of_leftovers(entries: Seq<Leftover>) -> Seq<EventView>
    decreases entries.len(),
{
    if entries.len() == 0 {
        Seq::empty()
    } else {
        news_of_leftovers(entries.drop_last()) + news_of_leftover(entries.last())
    }
}

/// The move of the leftover file `name` into the leftover folder.
pub open spec fn move_of(name: Seq<char>) -> ActionView {
    ActionView::MoveFile { from: seq![name], to: seq![leftover_folder(), name] }
}

/// The moves that the sweep is to ask for: one for each CSV file among the
/// entries, in listing order.
pub open spec fn moves_of(entries: Seq<Leftover>) -> Seq<ActionView>
    decreases entries.len(),
{
    if entries.len() == 0 {
        Seq::empty()
    } else if is_swept(entries.last()) {
        moves_of(entries.drop_last()).push(move_of(entries.last().name))
    } else {
        moves_of(entries.drop_last())
    }
}

/// The moves that the organizer asked for in answer to a series of news, in that
/// order.
pub open spec fn moves_asked(state: State, events: Seq<EventView>) -> Seq<ActionView>
    decreases events.len(),
{
    if events.len() == 0 {
        Seq::empty()
    } else {
        let before = moves_asked(state, events.drop_last());
        let asked = pending(advance(run(state, events.drop_last()), events.last()).state);
        if asked is MoveFile {
            before.push(asked)
        } else {
            before
        }
    }
}

/// News taken in two parts has the organizer ask for the same moves as the
/// whole.
pub proof fn lemma_moves_in_two_parts(
    state: State,
    first: Seq<EventView>,
    second: Seq<EventView>,
)
    ensures
        moves_asked(state, first + second) == moves_asked(state, first) + moves_asked(
            run(state, first),
            second,
        ),
    decreases second.len(),
{
    if second.len() == 0 {
        assert(first + second =~= first);
        assert(moves_asked(state, first) + Seq::<ActionView>::empty() =~= moves_asked(
            state,
            first,
        ));
    } else {
        assert((first + second).drop_last() =~= first + second.drop_last());
        assert((first + second).last() == second.last());
        lemma_moves_in_two_parts(state, first, second.drop_last());
        lemma_run_in_two_parts(state, first, second.drop_last());
        assert(moves_asked(state, first + second) =~= moves_asked(state, first) + moves_asked(
            run(state, first),
            second,
        ));
    }
}

/// What a single piece of news leads to and has the organizer ask for.
pub proof fn lemma_one_move_at_most(state: State, event: EventView)
    ensures
        run(state, seq![event]) == advance(state, event).state,
        moves_asked(state, seq![event]) == if pending(advance(state, event).state) is MoveFile {
            seq![pending(advance(state, event).state)]
        } else {
            Seq::empty()
        },
{
    reveal_with_fuel(run, 2);
    reveal_with_fuel(moves_asked, 2);
    assert(seq![event].drop_last() =~= Seq::<EventView>::empty());
    assert(seq![event].last() == event);
    let asked = pending(advance(state, event).state);
    assert(Seq::<ActionView>::empty().push(asked) =~= seq![asked]);
}

/// One entry: the sweep asks to move it if it is a CSV file and for nothing
/// otherwise, and is back at the listing whether or not the move succeeds.
pub proof fn lemma_sweep_of_one(dir: Seq<Seq<char>>, entry: Leftover)
    ensures
        run(sweeping(dir), news_of_leftover(entry)) == sweeping(dir),
        moves_asked(sweeping(dir), news_of_leftover(entry)) == if is_swept(entry) {
            seq![move_of(entry.name)]
        } else {
            Seq::empty()
        },
{
    let met = seq![EventView::Entry(EntryView { name: entry.name, kind: entry.kind })];
    lemma_one_move_at_most(sweeping(dir), met[0]);
    if is_swept(entry) {
        let moving = State { dir, stage: Stage::SweepMoving { name: entry.name } };
        let answer = if entry.movable {
            EventView::Done
        } else {
            EventView::Failed
        };
        assert(news_of_leftover(entry) =~= met + seq![answer]);
        lemma_one_move_at_most(moving, answer);
        lemma_run_in_two_parts(sweeping(dir), met, seq![answer]);
        lemma_moves_in_two_parts(sweeping(dir), met, seq![answer]);
        assert(pending(moving) == move_of(entry.name)) by {
            assert(Seq::<Seq<char>>::empty().push(entry.name) =~= seq![entry.name]);
            assert(Seq::<Seq<char>>::empty().push(leftover_folder()).push(entry.name) =~= seq![
                leftover_folder(),
                entry.name,
            ]);
        }
        assert(moves_asked(sweeping(dir), met + seq![answer]) =~= seq![move_of(entry.name)]);
    }
}

/// From the listing back to the listing: the news of the entries leaves the
/// sweep where it was, and the moves asked for meanwhile are those of the CSV
/// files among the entries, in listing order.
pub proof fn lemma_sweep_of_all(dir: Seq<Seq<char>>, entries: Seq<Leftover>)
    ensures
        run(sweeping(dir), news_of_leftovers(entries)) == sweeping(dir),
        moves_asked(sweeping(dir), news_of_leftovers(entries)) == moves_of(entries),
    decreases entries.len(),
{
    if entries.len() > 0 {
        let rest = news_of_leftovers(entries.drop_last());
        let last = news_of_leftover(entries.last());
        lemma_sweep_of_all(dir, entries.drop_last());
        lemma_sweep_of_one(dir, entries.last());
        lemma_run_in_two_parts(sweeping(dir), rest, last);
        lemma_moves_in_two_parts(sweeping(dir), rest, last);
        assert(moves_asked(sweeping(dir), rest + last) =~= moves_of(entries));
    }
}

/// The sweep moves the CSV files at the top and nothing else. Where the leftover
/// folder can be made and the scanned directory can be listed, the run completes
/// whatever the entries are and whether or not each move succeeds, and the moves
/// asked for on the way are exactly these: for each file among the entries that
/// has a CSV name, in listing order, from the scanned directory into its
/// leftover folder, under the same name. No directory is gone into.
pub proof fn lemma_sweep_moves_the_leftovers(dir: Seq<Seq<char>>, entries: Seq<Leftover>)
    ensures
        run(
            State { dir, stage: Stage::SweepPreparing },
            seq![EventView::Done, EventView::Done] + news_of_leftovers(entries) + seq![
                EventView::EndOfDirectory,
            ],
        ) == (State { dir, stage: Stage::Finished { outcome: Outcome::Completed } }),
        moves_asked(
            State { dir, stage: Stage::SweepPreparing },
            seq![EventView::Done, EventView::Done] + news_of_leftovers(entries) + seq![
                EventView::EndOfDirectory,
            ],
        ) == moves_of(entries),
{
    let start = State { dir, stage: Stage::SweepPreparing };
    let opening = State { dir, stage: Stage::SweepOpening };
    let made = seq![EventView::Done];
    let ready = seq![EventView::Done, EventView::Done];
    let end = seq![EventView::EndOfDirectory];
    let news = news_of_leftovers(entries);
    assert(ready =~= made + made);
    lemma_one_move_at_most(start, made[0]);
    lemma_one_move_at_most(opening, made[0]);
    lemma_run_in_two_parts(start, made, made);
    lemma_moves_in_two_parts(start, made, made);
    assert(moves_asked(start, ready).len() == 0);
    lemma_sweep_of_all(dir, entries);
    lemma_one_move_at_most(sweeping(dir), end[0]);
    lemma_run_in_two_parts(start, ready, news);
    lemma_moves_in_two_parts(start, ready, news);
    lemma_run_in_two_parts(start, ready + news, end);
    lemma_moves_in_two_parts(start, ready + news, end);
    assert(moves_asked(start, ready + news + end) =~= moves_of(entries));
}

} // verus!
