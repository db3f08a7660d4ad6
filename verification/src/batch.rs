//! A whole run of the orchestrator against a scripted environment.
//!
//! The environment of a run holds the cursor and answers the fetches. Here it
//! is an honest one: a load of the cursor returns what was saved last, and the
//! fetches of each item end as a script says. [`full_run`] is the course that
//! the orchestrator's steps then take, item by item, and [`item_plan`] says in
//! closed form what that course is.

use crate::orchestrator::{
    data_url, ActionView, ArtifactKind, Draws, EventView, OrchestratorView, Phase, Step,
    MAX_TARGETS,
};
use crate::pacing::{
    is_increment, lemma_ratchet_after, lemma_ratchet_after_add, ratchet_after, retried_count,
    Record, FLOOR_MS, INCREMENT_MIN_MS,
};
use crate::resume::{cursor_before, lemma_cursor_before};
use crate::retry::FetchOutcomeView;
use vstd::prelude::*;

verus! {

/// What the environment holds ready for one item: how the fetch of its page
/// and the fetch of its data resource end, and the random numbers that the
/// pacing controller draws for it.
pub struct ItemScript {
    pub delay: u64,
    pub page: FetchOutcomeView,
    pub page_increment: u64,
    pub data: FetchOutcomeView,
    pub data_increment: u64,
}

/// The course of one item: the state after it, the cursor that is saved
/// after it, and the actions that were asked for.
pub struct ItemRun {
    pub end: OrchestratorView,
    pub cursor: usize,
    pub actions: Seq<ActionView>,
}

/// The cursor that is saved once `actions` were performed in order, if it
/// read `cursor` before: the one that the last `SaveCursor` names.
pub open spec fn saved(cursor: usize, actions: Seq<ActionView>) -> usize
    decreases actions.len(),
{
    if actions.len() == 0 {
        cursor
    } else {
        match actions.last() {
            ActionView::SaveCursor { cursor: written } => written,
            _ => saved(cursor, actions.drop_last()),
        }
    }
}

/// The steps that one item takes, from the state `state` in which its cursor
/// is being loaded: the cursor that is loaded is `cursor`, and each fetch
/// that is asked for ends as `script` says.
pub open spec fn item_run(state: OrchestratorView, cursor: usize, script: ItemScript) -> ItemRun {
    let opened = state.step(
        EventView::CursorLoaded { cursor },
        Draws { delay: script.delay, increment: script.page_increment },
    );
    if !(opened.next.phase is FetchingPage) {
        ItemRun { end: opened.next, cursor: saved(cursor, opened.actions), actions: opened.actions }
    } else {
        let paged = opened.next.step(
            EventView::Fetched { outcome: script.page },
            Draws { delay: script.delay, increment: script.page_increment },
        );
        if !(paged.next.phase is FetchingData) {
            ItemRun {
                end: paged.next,
                cursor: saved(cursor, opened.actions + paged.actions),
                actions: opened.actions + paged.actions,
            }
        } else {
            let done = paged.next.step(
                EventView::Fetched { outcome: script.data },
                Draws { delay: script.delay, increment: script.data_increment },
            );
            ItemRun {
                end: done.next,
                cursor: saved(cursor, opened.actions + paged.actions + done.actions),
                actions: opened.actions + paged.actions + done.actions,
            }
        }
    }
}

/// The courses of the items that are left in state `state`, one for each
/// entry of `scripts`, when the cursor reads `cursor` at first.
pub open spec fn run_items(
    state: OrchestratorView,
    cursor: usize,
    scripts: Seq<ItemScript>,
) -> Seq<ItemRun>
    decreases scripts.len(),
{
    if scripts.len() == 0 {
        Seq::empty()
    } else {
        let first = item_run(state, cursor, scripts[0]);
        seq![first] + run_items(first.end, first.cursor, scripts.skip(1))
    }
}

/// The state of a run over `targets` after its start.
pub open spec fn started(targets: Seq<Seq<char>>) -> Step {
    OrchestratorView::initial(targets).step(EventView::Started, Draws { delay: 0, increment: 0 })
}

/// The course of a whole run over `targets`, item by item, that finds the
/// cursor at `cursor`; `scripts` holds one script for each target.
pub open spec fn full_run(
    targets: Seq<Seq<char>>,
    cursor: usize,
    scripts: Seq<ItemScript>,
) -> Seq<ItemRun> {
    run_items(started(targets).next, cursor, scripts)
}

/// What a run that found the cursor at `start` does for the item with
/// ordinal `index` and location `target`.
///
/// Below the cursor, nothing. From the cursor on: the ordinal is saved as the
/// cursor and the page is fetched. A page that was fetched is stored under the
/// ordinal, a pause follows, and the data resource is fetched; if that
/// succeeds it is stored under the same ordinal, and a pause follows. A fetch
/// that failed is reported, and nothing more is done for the item.
pub open spec fn item_plan(
    target: Seq<char>,
    index: nat,
    start: nat,
    script: ItemScript,
) -> Seq<ActionView> {
    if index < start {
        Seq::empty()
    } else {
        seq![
            ActionView::SaveCursor { cursor: index as usize },
            ActionView::Fetch { url: target },
        ] + match script.page {
            FetchOutcomeView::Success { body, .. } => seq![
                ActionView::Store { cursor: index as usize, kind: ArtifactKind::Page, body },
                ActionView::Sleep { millis: script.delay },
                ActionView::Fetch { url: data_url(target) },
            ] + match script.data {
                FetchOutcomeView::Success { body, .. } => seq![
                    ActionView::Store { cursor: index as usize, kind: ArtifactKind::Data, body },
                    ActionView::Sleep { millis: script.delay },
                ],
                FetchOutcomeView::Failure { reason, .. } => seq![ActionView::Report { reason }],
            },
            FetchOutcomeView::Failure { reason, .. } => seq![ActionView::Report { reason }],
        }
    }
}

/// The load of the cursor that follows the item with ordinal `index`, if
/// there is another item.
pub open spec fn next_load(count: nat, index: nat) -> Seq<ActionView> {
    if index + 1 < count {
        seq![ActionView::LoadCursor]
    } else {
        Seq::empty()
    }
}

/// What the pacing controller records for the item with ordinal `index`, in
/// a run that found the cursor at `start`: each fetch that was made for the
/// item, whether it succeeded or failed, with its retry flag and the
/// increment that was drawn for it. The page is always fetched, the data
/// resource only after the page was.
pub open spec fn item_records(index: nat, start: nat, script: ItemScript) -> Seq<Record> {
    if index < start {
        Seq::empty()
    } else {
        seq![Record { retried: script.page.retried(), increment: script.page_increment }]
            + match script.page {
            FetchOutcomeView::Success { .. } => seq![
                Record { retried: script.data.retried(), increment: script.data_increment },
            ],
            FetchOutcomeView::Failure { .. } => Seq::empty(),
        }
    }
}

/// What the pacing controller records for the items with ordinals `from`,
/// `from + 1` and so on, one for each entry of `scripts`.
pub open spec fn run_records(start: nat, from: nat, scripts: Seq<ItemScript>) -> Seq<Record>
    decreases scripts.len(),
{
    if scripts.len() == 0 {
        Seq::empty()
    } else {
        item_records(from, start, scripts[0]) + run_records(start, from + 1, scripts.skip(1))
    }
}

/// Whether the increments that `script` holds are ones that the pacing
/// controller may draw.
pub open spec fn plausible(script: ItemScript) -> bool {
    is_increment(script.page_increment) && is_increment(script.data_increment)
}

/// The state in which the cursor is being loaded for the item with ordinal
/// `index` of `targets`, or the finished state if there is no such item.
pub open spec fn at_item(state: OrchestratorView, targets: Seq<Seq<char>>, index: nat) -> bool {
    &&& state.wf()
    &&& state.targets == targets
    &&& state.index == index
    &&& state.phase == if index < targets.len() {
        Phase::Loading
    } else {
        Phase::Finished
    }
}

/// One item, from the loading of its cursor to the loading of the next.
proof fn lemma_item_run(state: OrchestratorView, start: usize, script: ItemScript)
    requires
        at_item(state, state.targets, state.index),
        state.index < state.targets.len(),
        plausible(script),
    ensures
        ({
            let course = item_run(state, cursor_before(start as nat, state.index) as usize, script);
            &&& course.actions == item_plan(
                state.targets[state.index as int],
                state.index,
                start as nat,
                script,
            ) + next_load(state.targets.len(), state.index)
            &&& course.cursor == cursor_before(start as nat, state.index + 1)
            &&& at_item(course.end, state.targets, state.index + 1)
            &&& course.end.ratchet_ms == ratchet_after(
                state.ratchet_ms as int,
                item_records(state.index, start as nat, script),
            )
        }),
{
    reveal_with_fuel(saved, 8);
    reveal_with_fuel(ratchet_after, 3);
    let index = state.index;
    let count = state.targets.len();
    let target = state.targets[index as int];
    lemma_cursor_before(start as nat, index);
    lemma_cursor_before(start as nat, index + 1);
    let cursor = cursor_before(start as nat, index) as usize;
    let course = item_run(state, cursor, script);
    let plan = item_plan(target, index, start as nat, script) + next_load(count, index);
    let opened = state.step(
        EventView::CursorLoaded { cursor },
        Draws { delay: script.delay, increment: script.page_increment },
    );
    if index < start {
        assert(course.actions =~= plan);
    } else {
        let paged = opened.next.step(
            EventView::Fetched { outcome: script.page },
            Draws { delay: script.delay, increment: script.page_increment },
        );
        match script.page {
            FetchOutcomeView::Success { .. } => {
                let done = paged.next.step(
                    EventView::Fetched { outcome: script.data },
                    Draws { delay: script.delay, increment: script.data_increment },
                );
                assert(course.actions =~= plan);
                assert(course.actions == opened.actions + paged.actions + done.actions);
                lemma_saved(cursor, index as usize, opened.actions, paged.actions + done.actions);
                assert(opened.actions + (paged.actions + done.actions) =~= course.actions);
            },
            FetchOutcomeView::Failure { .. } => {
                assert(course.actions =~= plan);
                lemma_saved(cursor, index as usize, opened.actions, paged.actions);
            },
        }
    }
}

/// A list of actions whose only `SaveCursor` stands first leaves the cursor
/// that it names.
proof fn lemma_saved(cursor: usize, written: usize, head: Seq<ActionView>, tail: Seq<ActionView>)
    requires
        head.len() > 0,
        head[0] == (ActionView::SaveCursor { cursor: written }),
        forall|i: int| 1 <= i < head.len() ==> !(#[trigger] head[i] is SaveCursor),
        forall|i: int| 0 <= i < tail.len() ==> !(#[trigger] tail[i] is SaveCursor),
    ensures
        saved(cursor, head + tail) == written,
    decreases head.len() + tail.len(),
{
    let all = head + tail;
    if tail.len() > 0 {
        assert(all.drop_last() =~= head + tail.drop_last());
        assert(all.last() == tail.last());
        lemma_saved(cursor, written, head, tail.drop_last());
    } else if head.len() > 1 {
        assert(all.drop_last() =~= head.drop_last() + tail);
        assert(all.last() == head.last());
        lemma_saved(cursor, written, head.drop_last(), tail);
    } else {
        assert(all.last() == head[0]);
    }
}

/// The items from ordinal `from` on, in a run that found the cursor at
/// `start`.
proof fn lemma_run_items(
    state: OrchestratorView,
    start: usize,
    scripts: Seq<ItemScript>,
    from: nat,
    index: int,
)
    requires
        at_item(state, state.targets, from),
        from + scripts.len() == state.targets.len(),
        forall|i: int| 0 <= i < scripts.len() ==> plausible(#[trigger] scripts[i]),
        from <= index < state.targets.len(),
    ensures
        ({
            let courses = run_items(state, cursor_before(start as nat, from) as usize, scripts);
            &&& courses.len() == scripts.len()
            &&& courses[index - from].actions == item_plan(
                state.targets[index],
                index as nat,
                start as nat,
                scripts[index - from],
            ) + next_load(state.targets.len(), index as nat)
            &&& courses[index - from].cursor == cursor_before(start as nat, (index + 1) as nat)
            &&& at_item(courses[index - from].end, state.targets, (index + 1) as nat)
            &&& courses[index - from].end.ratchet_ms == ratchet_after(
                state.ratchet_ms as int,
                run_records(start as nat, from, scripts.take(index - from + 1)),
            )
            &&& courses[index - from].end.ratchet_ms == ratchet_after(
                (if index == from {
                    state
                } else {
                    courses[index - from - 1].end
                }).ratchet_ms as int,
                item_records(index as nat, start as nat, scripts[index - from]),
            )
        }),
    decreases scripts.len(),
{
    let cursor = cursor_before(start as nat, from) as usize;
    let first = item_run(state, cursor, scripts[0]);
    let rest = scripts.skip(1);
    let taken = scripts.take(index - from + 1);
    let own = item_records(from, start as nat, scripts[0]);
    lemma_item_run(state, start, scripts[0]);
    lemma_run_items_len(first.end, first.cursor, rest);
    assert(taken[0] == scripts[0]);
    if index > from {
        assert forall|i: int| 0 <= i < rest.len() implies plausible(#[trigger] rest[i]) by {
            assert(rest[i] == scripts[i + 1]);
        }
        lemma_run_items(first.end, start, rest, from + 1, index);
        assert(rest[index - (from + 1)] == scripts[index - from]);
        assert(taken.skip(1) =~= rest.take(index - from));
        lemma_ratchet_after_add(
            state.ratchet_ms as int,
            own,
            run_records(start as nat, from + 1, rest.take(index - from)),
        );
    } else {
        assert(taken.skip(1) =~= Seq::<ItemScript>::empty());
        assert(own + run_records(start as nat, from + 1, taken.skip(1)) =~= own);
    }
}

/// A run holds one course for each script.
proof fn lemma_run_items_len(state: OrchestratorView, cursor: usize, scripts: Seq<ItemScript>)
    ensures
        run_items(state, cursor, scripts).len() == scripts.len(),
    decreases scripts.len(),
{
    if scripts.len() > 0 {
        let first = item_run(state, cursor, scripts[0]);
        lemma_run_items_len(first.end, first.cursor, scripts.skip(1));
    }
}

/// A whole run over `targets` that finds the cursor at `start`, with an
/// honest environment, holds one course for each target, in order, and the
/// course of the item with ordinal `index` is this:
/// an item below `start` is skipped, with no action of its own, and leaves the
/// cursor at `start`;
/// any other item is processed once, with exactly the actions of
/// `item_plan`, which name no ordinal but its own, and leaves its ordinal as
/// the cursor;
/// after either, the cursor of the next item is loaded, or the run is finished
/// if there is none, and the ratchet stands where the fetches up to this item,
/// successful or not, have pushed it from `FLOOR_MS`.
pub proof fn lemma_full_run(
    targets: Seq<Seq<char>>,
    start: usize,
    scripts: Seq<ItemScript>,
    index: int,
)
    requires
        targets.len() <= MAX_TARGETS,
        targets.len() <= usize::MAX,
        scripts.len() == targets.len(),
        forall|i: int| 0 <= i < scripts.len() ==> plausible(#[trigger] scripts[i]),
        0 <= index < targets.len(),
    ensures
        full_run(targets, start, scripts).len() == targets.len(),
        full_run(targets, start, scripts)[index].actions == item_plan(
            targets[index],
            index as nat,
            start as nat,
            scripts[index],
        ) + next_load(targets.len(), index as nat),
        full_run(targets, start, scripts)[index].cursor == if index < start {
            start
        } else {
            index as usize
        },
        at_item(full_run(targets, start, scripts)[index].end, targets, (index + 1) as nat),
        full_run(targets, start, scripts)[index].end.ratchet_ms == ratchet_after(
            FLOOR_MS as int,
            run_records(start as nat, 0, scripts.take(index + 1)),
        ),
{
    lemma_run_items(started(targets).next, start, scripts, 0, index);
    lemma_cursor_before(start as nat, (index + 1) as nat);
}

/// The state in which the item with ordinal `index` begins, in a whole run
/// over `targets` that finds the cursor at `cursor`: the state after the
/// start for the first item, and the state that the item before it ended in
/// for any other.
pub open spec fn state_before(
    targets: Seq<Seq<char>>,
    cursor: usize,
    scripts: Seq<ItemScript>,
    index: int,
) -> OrchestratorView {
    if index == 0 {
        started(targets).next
    } else {
        full_run(targets, cursor, scripts)[index - 1].end
    }
}

/// Whether one of the fetches that are made for the item with ordinal `index`
/// counted a retry, whether it then succeeded or failed.
pub open spec fn item_retried(index: nat, start: nat, script: ItemScript) -> bool {
    retried_count(item_records(index, start, script)) > 0
}

/// The ratchet over one item of a whole run: the item ends with the ratchet
/// where its own fetches, successful or not, have pushed it from where the
/// item began. So no item lowers the ratchet, and an item of which a fetch
/// counted a retry raises it by at least `INCREMENT_MIN_MS`. A run begins
/// with the ratchet at `FLOOR_MS`.
pub proof fn lemma_item_ratchet(
    targets: Seq<Seq<char>>,
    start: usize,
    scripts: Seq<ItemScript>,
    index: int,
)
    requires
        targets.len() <= MAX_TARGETS,
        targets.len() <= usize::MAX,
        scripts.len() == targets.len(),
        forall|i: int| 0 <= i < scripts.len() ==> plausible(#[trigger] scripts[i]),
        0 <= index < targets.len(),
    ensures
        state_before(targets, start, scripts, 0).ratchet_ms == FLOOR_MS,
        state_before(targets, start, scripts, index).ratchet_ms >= FLOOR_MS,
        full_run(targets, start, scripts)[index].end.ratchet_ms == ratchet_after(
            state_before(targets, start, scripts, index).ratchet_ms as int,
            item_records(index as nat, start as nat, scripts[index]),
        ),
        full_run(targets, start, scripts)[index].end.ratchet_ms >= state_before(
            targets,
            start,
            scripts,
            index,
        ).ratchet_ms,
        item_retried(index as nat, start as nat, scripts[index]) ==> full_run(
            targets,
            start,
            scripts,
        )[index].end.ratchet_ms >= state_before(targets, start, scripts, index).ratchet_ms
            + INCREMENT_MIN_MS,
{
    lemma_run_items(started(targets).next, start, scripts, 0, index);
    if index > 0 {
        lemma_run_items(started(targets).next, start, scripts, 0, index - 1);
    }
    let records = item_records(index as nat, start as nat, scripts[index]);
    assert(plausible(scripts[index]));
    lemma_ratchet_after(state_before(targets, start, scripts, index).ratchet_ms as int, records);
}

/// Three items in a row of which each had a fetch that counted a retry,
/// whether that fetch then succeeded or failed: after the third the ratchet
/// stands at least three smallest increments above where the first began, and
/// so strictly above `FLOOR_MS`.
pub proof fn lemma_three_retried_items(
    targets: Seq<Seq<char>>,
    start: usize,
    scripts: Seq<ItemScript>,
    index: int,
)
    requires
        targets.len() <= MAX_TARGETS,
        targets.len() <= usize::MAX,
        scripts.len() == targets.len(),
        forall|i: int| 0 <= i < scripts.len() ==> plausible(#[trigger] scripts[i]),
        0 <= index,
        index + 2 < targets.len(),
        forall|i: int|
            index <= i <= index + 2 ==> item_retried(i as nat, start as nat, #[trigger] scripts[i]),
    ensures
        full_run(targets, start, scripts)[index + 2].end.ratchet_ms >= state_before(
            targets,
            start,
            scripts,
            index,
        ).ratchet_ms + 3 * INCREMENT_MIN_MS,
        full_run(targets, start, scripts)[index + 2].end.ratchet_ms > FLOOR_MS,
{
    assert(item_retried(index as nat, start as nat, scripts[index]));
    assert(item_retried((index + 1) as nat, start as nat, scripts[index + 1]));
    assert(item_retried((index + 2) as nat, start as nat, scripts[index + 2]));
    lemma_item_ratchet(targets, start, scripts, index);
    lemma_item_ratchet(targets, start, scripts, index + 1);
    lemma_item_ratchet(targets, start, scripts, index + 2);
}

/// The number of actions among the first `upto` of `actions` that `wanted`
/// holds of.
pub open spec fn count_upto(
    actions: Seq<ActionView>,
    upto: nat,
    wanted: spec_fn(ActionView) -> bool,
) -> nat
    decreases upto,
{
    if upto == 0 {
        0
    } else {
        count_upto(actions, (upto - 1) as nat, wanted) + if wanted(actions[upto - 1]) {
            1nat
        } else {
            0nat
        }
    }
}

/// The number of actions among `actions` that `wanted` holds of.
pub open spec fn count(actions: Seq<ActionView>, wanted: spec_fn(ActionView) -> bool) -> nat {
    count_upto(actions, actions.len(), wanted)
}

/// The number of cursors that `actions` saves.
pub open spec fn saves(actions: Seq<ActionView>) -> nat {
    count(actions, |action: ActionView| action is SaveCursor)
}

/// The number of fetches that `actions` asks for.
pub open spec fn fetches(actions: Seq<ActionView>) -> nat {
    count(actions, |action: ActionView| action is Fetch)
}

/// The number of bodies that `actions` stores.
pub open spec fn stores(actions: Seq<ActionView>) -> nat {
    count(actions, |action: ActionView| action is Store)
}

/// The number of failed fetches that `actions` reports.
pub open spec fn reports(actions: Seq<ActionView>) -> nat {
    count(actions, |action: ActionView| action is Report)
}

/// The actions of an item that is processed: its ordinal is saved once; each
/// fetch that is asked for ends in exactly one stored body or one report;
/// there are two stored bodies if and only if both fetches succeed, and at
/// most one report; every cursor that is saved and every body that is stored
/// carries the item's own ordinal.
pub proof fn lemma_item_plan_counts(target: Seq<char>, index: nat, start: nat, script: ItemScript)
    requires
        start <= index <= usize::MAX,
    ensures
        ({
            let plan = item_plan(target, index, start, script);
            &&& saves(plan) == 1
            &&& 1 <= fetches(plan) <= 2
            &&& fetches(plan) == stores(plan) + reports(plan)
            &&& reports(plan) <= 1
            &&& (stores(plan) == 2 <==> script.page is Success && script.data is Success)
            &&& (stores(plan) >= 1 <==> script.page is Success)
            &&& forall|i: int|
                0 <= i < plan.len() ==> (#[trigger] plan[i] matches ActionView::SaveCursor {
                    cursor,
                } ==> cursor == index)
            &&& forall|i: int|
                0 <= i < plan.len() ==> (#[trigger] plan[i] matches ActionView::Store {
                    cursor,
                    ..
                } ==> cursor == index)
        }),
{
    reveal_with_fuel(count_upto, 8);
    let plan = item_plan(target, index, start, script);
    match script.page {
        FetchOutcomeView::Success { .. } => match script.data {
            FetchOutcomeView::Success { .. } => {
                assert(plan.len() == 7);
            },
            FetchOutcomeView::Failure { .. } => {
                assert(plan.len() == 6);
            },
        },
        FetchOutcomeView::Failure { .. } => {
            assert(plan.len() == 3);
        },
    }
}

} // verus!
