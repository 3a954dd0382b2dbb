//! The walk as a whole: over any directory tree, the files are met depth first,
//! each directory's entries in the order in which they are listed.

use crate::header::verdict_of;
use crate::location::is_csv_name;
use crate::model::{advance, initial, meet_file, Stage, State};
use crate::protocol::{EntryKind, EntryView, EventView, Remark};
use vstd::prelude::*;

verus! {

/// One entry of a directory tree as a run goes through it.
pub enum Node {
    /// A file, or whatever else is no directory, with the news that the caller
    /// gives while the file is dealt with.
    File { name: Seq<char>, kind: EntryKind, answers: Seq<EventView> },
    /// A directory that can be listed, with its entries in listing order.
    Directory { name: Seq<char>, entries: Seq<Node> },
}

/// The state in which the walk asks for the next entry of `dir`.
pub open spec fn listing(dir: Seq<Seq<char>>) -> State {
    State { dir, stage: Stage::Listing }
}

/// Whether an operation on a single file is outstanding.
pub open spec fn on_a_file(state: State) -> bool {
    state.stage is Reading || state.stage is Preparing || state.stage is Copying || state.stage
        is Securing || state.stage is Moving
}

/// The state after a series of news.
pub open spec fn run(state: State, events: Seq<EventView>) -> State
    decreases events.len(),
{
    if events.len() == 0 {
        state
    } else {
        advance(run(state, events.drop_last()), events.last()).state
    }
}

/// The files that a series of news had the organizer look at, in that order.
pub open spec fn files_met(state: State, events: Seq<EventView>) -> Seq<Seq<Seq<char>>>
    decreases events.len(),
{
    if events.len() == 0 {
        Seq::empty()
    } else {
        let before = files_met(state, events.drop_last());
        match advance(run(state, events.drop_last()), events.last()).notice {
            Some(notice) => if notice.remark == Remark::Processing {
                before.push(notice.file)
            } else {
                before
            },
            None => before,
        }
    }
}

/// Whether `answers` is the news of one file of `dir` being dealt with from
/// beginning to end: it keeps the organizer on that file until the last of it,
/// and then the walk is back at listing `dir`. For a file that is no CSV file
/// there is nothing to answer.
pub open spec fn deals_with(dir: Seq<Seq<char>>, name: Seq<char>, answers: Seq<EventView>)
    -> bool {
    let start = meet_file(listing(dir), name).state;
    &&& run(start, answers) == listing(dir)
    &&& forall|k: int| 0 <= k < answers.len() ==> on_a_file(#[trigger] run(start, answers.take(k)))
}

/// Whether the entries are such as a listing of `dir` can give, all the way down.
pub open spec fn fits(dir: Seq<Seq<char>>, entries: Seq<Node>) -> bool
    decreases entries,
{
    forall|i: int|
        0 <= i < entries.len() ==> match #[trigger] entries[i] {
            Node::File { name, kind, answers } => kind != EntryKind::Directory && deals_with(
                dir,
                name,
                answers,
            ),
            Node::Directory { name, entries: inner } => fits(dir.push(name), inner),
        }
}

/// The news that the caller gives while the walk goes through the entries of a
/// directory that it has opened, up to but not including the end of that
/// directory.
pub open spec fn news_of(entries: Seq<Node>) -> Seq<EventView>
    decreases entries,
{
    if entries.len() == 0 {
        Seq::empty()
    } else {
        news_of(entries.drop_last()) + match entries.last() {
            Node::File { name, kind, answers } => seq![
                EventView::Entry(EntryView { name, kind }),
            ] + answers,
            Node::Directory { name, entries: inner } => seq![
                EventView::Entry(EntryView { name, kind: EntryKind::Directory }),
                EventView::Done,
            ] + news_of(inner) + seq![EventView::EndOfDirectory],
        }
    }
}

/// The files below `dir`, depth first: each entry in listing order, and what is
/// in a directory before what follows the directory.
pub open spec fn files_below(dir: Seq<Seq<char>>, entries: Seq<Node>) -> Seq<Seq<Seq<char>>>
    decreases entries,
{
    if entries.len() == 0 {
        Seq::empty()
    } else {
        files_below(dir, entries.drop_last()) + match entries.last() {
            Node::File { name, .. } => seq![dir.push(name)],
            Node::Directory { name, entries: inner } => files_below(dir.push(name), inner),
        }
    }
}

/// News taken in two parts leads where the whole leads, and has the organizer
/// look at the same files.
pub proof fn lemma_run_in_two_parts(state: State, first: Seq<EventView>, second: Seq<EventView>)
    ensures
        run(state, first + second) == run(run(state, first), second),
        files_met(state, first + second) == files_met(state, first) + files_met(
            run(state, first),
            second,
        ),
    decreases second.len(),
{
    if second.len() == 0 {
        assert(first + second =~= first);
        assert(files_met(state, first) + Seq::<Seq<Seq<char>>>::empty() =~= files_met(
            state,
            first,
        ));
    } else {
        assert((first + second).drop_last() =~= first + second.drop_last());
        assert((first + second).last() == second.last());
        lemma_run_in_two_parts(state, first, second.drop_last());
        let before = files_met(state, first) + files_met(run(state, first), second.drop_last());
        let then = run(run(state, first), second.drop_last());
        match advance(then, second.last()).notice {
            Some(notice) => {
                assert(before.push(notice.file) =~= files_met(state, first) + files_met(
                    run(state, first),
                    second.drop_last(),
                ).push(notice.file));
            },
            None => {},
        }
    }
}

/// A single piece of news leads where `advance` says, and has the organizer look
/// at a file where `advance` remarks that it does.
pub proof fn lemma_one_piece_of_news(state: State, event: EventView)
    ensures
        run(state, seq![event]) == advance(state, event).state,
        files_met(state, seq![event]) == match advance(state, event).notice {
            Some(notice) => if notice.remark == Remark::Processing {
                seq![notice.file]
            } else {
                Seq::empty()
            },
            None => Seq::empty(),
        },
{
    reveal_with_fuel(run, 2);
    reveal_with_fuel(files_met, 2);
    assert(seq![event].drop_last() =~= Seq::<EventView>::empty());
    assert(seq![event].last() == event);
    match advance(state, event).notice {
        Some(notice) => {
            assert(Seq::<Seq<Seq<char>>>::empty().push(notice.file) =~= seq![notice.file]);
        },
        None => {},
    }
}

/// While one file is dealt with, the organizer looks at no other.
pub proof fn lemma_one_file_at_a_time(
    dir: Seq<Seq<char>>,
    name: Seq<char>,
    answers: Seq<EventView>,
    k: int,
)
    requires
        deals_with(dir, name, answers),
        0 <= k <= answers.len(),
    ensures
        files_met(meet_file(listing(dir), name).state, answers.take(k)).len() == 0,
    decreases k,
{
    let start = meet_file(listing(dir), name).state;
    if k > 0 {
        lemma_one_file_at_a_time(dir, name, answers, k - 1);
        assert(answers.take(k).drop_last() =~= answers.take(k - 1));
        assert(on_a_file(run(start, answers.take(k - 1))));
    }
}

/// A file that is no CSV file is dealt with as soon as it is met.
pub proof fn lemma_other_files_need_no_news(dir: Seq<Seq<char>>, name: Seq<char>)
    requires
        !is_csv_name(name),
    ensures
        deals_with(dir, name, Seq::empty()),
{
}

/// A CSV file that cannot be read is dealt with by the news of that alone.
pub proof fn lemma_unreadable_file_is_dealt_with(dir: Seq<Seq<char>>, name: Seq<char>)
    requires
        is_csv_name(name),
    ensures
        deals_with(dir, name, seq![EventView::Failed]),
{
    let start = meet_file(listing(dir), name).state;
    let answers = seq![EventView::Failed];
    lemma_one_piece_of_news(start, answers[0]);
    assert forall|k: int| 0 <= k < answers.len() implies on_a_file(
        #[trigger] run(start, answers.take(k)),
    ) by {
        assert(answers.take(0) =~= Seq::<EventView>::empty());
    }
}

/// A CSV file of a known kind is dealt with by its bytes, the folder of its kind
/// and its copy there.
pub proof fn lemma_copied_file_is_dealt_with(dir: Seq<Seq<char>>, name: Seq<char>, data: Seq<u8>)
    requires
        is_csv_name(name),
        verdict_of(data) is Known,
    ensures
        deals_with(dir, name, seq![EventView::Contents(data), EventView::Done, EventView::Done]),
{
    let start = meet_file(listing(dir), name).state;
    let answers = seq![EventView::Contents(data), EventView::Done, EventView::Done];
    let read = seq![EventView::Contents(data)];
    let made = seq![EventView::Done];
    let category = verdict_of(data)->Known_0;
    let preparing = State { dir, stage: Stage::Preparing { name, category } };
    let copying = State { dir, stage: Stage::Copying { name, category } };
    lemma_one_piece_of_news(start, read[0]);
    lemma_one_piece_of_news(preparing, made[0]);
    lemma_one_piece_of_news(copying, made[0]);
    lemma_run_in_two_parts(start, read, made);
    lemma_run_in_two_parts(start, read + made, made);
    assert(answers =~= read + made + made);
    assert forall|k: int| 0 <= k < answers.len() implies on_a_file(
        #[trigger] run(start, answers.take(k)),
    ) by {
        assert(answers.take(0) =~= Seq::<EventView>::empty());
        assert(answers.take(1) =~= read);
        assert(answers.take(2) =~= read + made);
    }
}

/// From the listing of a directory back to the same listing: the news of the
/// entries of a directory leaves the walk where it was, and the files that were
/// looked at meanwhile are those below the directory, depth first.
pub proof fn lemma_walk_below(dir: Seq<Seq<char>>, entries: Seq<Node>)
    requires
        fits(dir, entries),
    ensures
        run(listing(dir), news_of(entries)) == listing(dir),
        files_met(listing(dir), news_of(entries)) == files_below(dir, entries),
    decreases entries,
{
    if entries.len() > 0 {
        let rest = entries.drop_last();
        assert forall|i: int| 0 <= i < rest.len() implies match #[trigger] rest[i] {
            Node::File { name, kind, answers } => kind != EntryKind::Directory && deals_with(
                dir,
                name,
                answers,
            ),
            Node::Directory { name, entries: inner } => fits(dir.push(name), inner),
        } by {
            assert(rest[i] == entries[i]);
        }
        lemma_walk_below(dir, rest);
        let last = entries[entries.len() - 1];
        assert(last == entries.last());
        match last {
            Node::File { name, kind, answers } => {
                let entry = seq![EventView::Entry(EntryView { name, kind })];
                lemma_one_piece_of_news(listing(dir), entry[0]);
                lemma_one_file_at_a_time(dir, name, answers, answers.len() as int);
                assert(answers.take(answers.len() as int) =~= answers);
                lemma_run_in_two_parts(listing(dir), entry, answers);
                lemma_run_in_two_parts(listing(dir), news_of(rest), entry + answers);
                assert(files_met(listing(dir), entry + answers) =~= seq![dir.push(name)]);
            },
            Node::Directory { name, entries: inner } => {
                let enter = seq![EventView::Entry(EntryView { name, kind: EntryKind::Directory })];
                let opened = seq![EventView::Done];
                let up = seq![EventView::EndOfDirectory];
                let below = dir.push(name);
                let down = seq![
                    EventView::Entry(EntryView { name, kind: EntryKind::Directory }),
                    EventView::Done,
                ];
                assert(down =~= enter + opened);
                lemma_walk_below(below, inner);
                lemma_one_piece_of_news(listing(dir), enter[0]);
                lemma_one_piece_of_news(State { dir: below, stage: Stage::Opening }, opened[0]);
                lemma_run_in_two_parts(listing(dir), enter, opened);
                assert(run(listing(dir), down) == listing(below));
                assert(files_met(listing(dir), down).len() == 0);
                assert(below.drop_last() =~= dir);
                lemma_one_piece_of_news(listing(below), up[0]);
                lemma_run_in_two_parts(listing(dir), down, news_of(inner));
                lemma_run_in_two_parts(listing(dir), down + news_of(inner), up);
                lemma_run_in_two_parts(listing(dir), news_of(rest), down + news_of(inner) + up);
                assert(files_met(listing(dir), down + news_of(inner) + up) =~= files_below(
                    below,
                    inner,
                ));
            },
        }
    }
}

/// The walk goes through the whole tree depth first. Where every directory can
/// be listed and no file ends the run, the news of opening the scanned
/// directory, of its entries and of its end brings the organizer to the start of
/// the sweep, and on the way it has looked at every file of the tree exactly
/// once: the entries of each directory in the order in which they were listed,
/// and what is in a directory before the entries that follow that directory.
pub proof fn lemma_walk_is_depth_first(entries: Seq<Node>)
    requires
        fits(Seq::empty(), entries),
    ensures
        run(initial(true), seq![EventView::Done] + news_of(entries) + seq![EventView::EndOfDirectory])
            == (State { dir: Seq::empty(), stage: Stage::SweepPreparing }),
        files_met(
            initial(true),
            seq![EventView::Done] + news_of(entries) + seq![EventView::EndOfDirectory],
        ) == files_below(Seq::empty(), entries),
{
    let root = Seq::<Seq<char>>::empty();
    let open = seq![EventView::Done];
    let end = seq![EventView::EndOfDirectory];
    lemma_walk_below(root, entries);
    lemma_one_piece_of_news(initial(true), open[0]);
    lemma_one_piece_of_news(listing(root), end[0]);
    lemma_run_in_two_parts(initial(true), open, news_of(entries));
    lemma_run_in_two_parts(initial(true), open + news_of(entries), end);
    assert(files_met(initial(true), open + news_of(entries) + end) =~= files_below(root, entries));
}

} // verus!
