//! Several notes being stored at once.
//!
//! A run takes a list of notes to store, one index and one file store, and
//! a schedule that says which note's request takes its next step. Every
//! schedule is a run: requests may overtake each other between any two of
//! their steps. The file store is one that never fails.

use crate::config::ConfigurationView;
use crate::dates::CalendarDate;
use crate::dispatch::{begin_step, note_step, resume_step, resumed_index};
use crate::effects::{EffectView, OutcomeView};
use crate::http::{route_of, RequestView, Route};
use crate::notes::{
    decoded_note, entries_are_note_paths, lemma_index_keeps_notes_apart,
    lemma_resolution_keeps_note_paths, sanitized_text, NoteView,
};
use crate::protocol::{PendingView, StepView};
use vstd::prelude::*;
use vstd::utf8::encode_utf8;

verus! {

/// A note to store: its id, its content, and the local date at the moment
/// its request begins.
pub struct Task {
    pub id: Seq<char>,
    pub content: Seq<char>,
    pub date: CalendarDate,
}

/// The state of a run: the index, the files by their paths, and for each
/// task the step it stands at, or `None` if its request has not begun.
pub struct World {
    pub index: Map<Seq<char>, Seq<char>>,
    pub files: Map<Seq<char>, Seq<u8>>,
    pub steps: Seq<Option<StepView>>,
}

/// A task is what a request to store a note begins with: a request on the
/// route for storing whose body holds the task's id and content begins
/// with the task's first step.
pub proof fn lemma_task_is_a_request(
    request: RequestView,
    config: ConfigurationView,
    index: Map<Seq<char>, Seq<char>>,
    task: Task,
)
    requires
        route_of(request.method, request.path) == Route::SetNote,
        decoded_note(request.body) == Some(NoteView { id: task.id, content: task.content }),
    ensures
        begin_step(request, config, index, task.date) == note_step(
            task.id,
            Some(task.content),
            config.notes_dir,
            index,
            task.date,
        ),
{
}

/// What a file store that never fails reports for an effect. It runs no
/// programs and resolves no paths.
pub open spec fn store_outcome(effect: EffectView, files: Map<Seq<char>, Seq<u8>>) -> OutcomeView {
    match effect {
        EffectView::CreateDirectory { path } => OutcomeView::Done,
        EffectView::WriteFile { path, bytes } => OutcomeView::Done,
        EffectView::ReadFile { path } => if files.contains_key(path) {
            OutcomeView::Content { bytes: files[path] }
        } else {
            OutcomeView::Missing
        },
        EffectView::CreateEmptyFile { path } => OutcomeView::Done,
        EffectView::ResolveAbsolute { path } => OutcomeView::Failed,
        EffectView::Run { command } => OutcomeView::Failed,
    }
}

/// The files after an effect: a write replaces the whole file, the
/// creation of an empty file leaves a file that exists as it is.
pub open spec fn store_after(effect: EffectView, files: Map<Seq<char>, Seq<u8>>) -> Map<
    Seq<char>,
    Seq<u8>,
> {
    match effect {
        EffectView::WriteFile { path, bytes } => files.insert(path, bytes),
        EffectView::CreateEmptyFile { path } => if files.contains_key(path) {
            files
        } else {
            files.insert(path, Seq::<u8>::empty())
        },
        _ => files,
    }
}

/// The state in which no request has begun.
pub open spec fn initial_world(
    index: Map<Seq<char>, Seq<char>>,
    files: Map<Seq<char>, Seq<u8>>,
    tasks: Seq<Task>,
) -> World {
    World { index, files, steps: Seq::new(tasks.len(), |k: int| None::<StepView>) }
}

/// The state after task `k` has taken its next step: its request begins,
/// or the effect it waits for is performed and the request resumed. A
/// request that has been answered takes no further step.
pub open spec fn advance(world: World, tasks: Seq<Task>, config: ConfigurationView, k: int) -> World {
    if 0 <= k < tasks.len() && world.steps.len() == tasks.len() {
        match world.steps[k] {
            None => World {
                index: world.index,
                files: world.files,
                steps: world.steps.update(
                    k,
                    Some(
                        note_step(
                            tasks[k].id,
                            Some(tasks[k].content),
                            config.notes_dir,
                            world.index,
                            tasks[k].date,
                        ),
                    ),
                ),
            },
            Some(StepView::Perform { effect, pending }) => {
                let outcome = store_outcome(effect, world.files);
                World {
                    index: resumed_index(pending, outcome, config, world.index),
                    files: store_after(effect, world.files),
                    steps: world.steps.update(
                        k,
                        Some(resume_step(pending, outcome, config, world.index)),
                    ),
                }
            },
            Some(StepView::Reply { response, failure }) => world,
        }
    } else {
        world
    }
}

/// The state after the tasks have taken steps in the order of `schedule`.
pub open spec fn run(
    world: World,
    tasks: Seq<Task>,
    config: ConfigurationView,
    schedule: Seq<int>,
) -> World
    decreases schedule.len(),
{
    if schedule.len() == 0 {
        world
    } else {
        advance(run(world, tasks, config, schedule.drop_last()), tasks, config, schedule.last())
    }
}

/// No two tasks have ids with the same sanitized form.
pub open spec fn names_are_distinct(tasks: Seq<Task>) -> bool {
    forall|j: int, k: int|
        0 <= j < tasks.len() && 0 <= k < tasks.len() && j != k ==> sanitized_text(
            #[trigger] tasks[j].id,
        ) != sanitized_text(#[trigger] tasks[k].id)
}

/// The task's request has been answered with status 200 and no failure,
/// the task's id is on record, and the file on record holds the task's
/// content and nothing else.
pub open spec fn is_stored(world: World, task: Task, step: StepView) -> bool {
    &&& step matches StepView::Reply { response, failure }
    &&& response.status == 200
    &&& failure is None
    &&& world.index.contains_key(task.id)
    &&& world.files.contains_key(world.index[task.id])
    &&& world.files[world.index[task.id]] == encode_utf8(task.content)
}

/// The request of a task has been answered.
pub open spec fn is_answered(step: Option<StepView>) -> bool {
    step is Some && step->0 is Reply
}

/// The step that a task stands at fits the task: it waits for its
/// directory, or it writes its own content to the file on record for its
/// own id, or it is stored.
pub open spec fn step_fits(world: World, task: Task, step: Option<StepView>) -> bool {
    match step {
        None => true,
        Some(StepView::Perform { effect, pending }) => {
            ||| effect is CreateDirectory && pending == (PendingView::NoteDirectory {
                id: task.id,
                content: Some(task.content),
                date: task.date,
            })
            ||| world.index.contains_key(task.id) && pending == PendingView::NoteWritten
                && effect == (EffectView::WriteFile {
                path: world.index[task.id],
                bytes: encode_utf8(task.content),
            })
        },
        Some(reply) => is_stored(world, task, reply),
    }
}

/// Every path on record is a note's path, and every task stands at a step
/// that fits it.
pub open spec fn in_order(world: World, tasks: Seq<Task>) -> bool {
    &&& world.steps.len() == tasks.len()
    &&& entries_are_note_paths(world.index)
    &&& forall|k: int| 0 <= k < tasks.len() ==> step_fits(world, tasks[k], #[trigger] world.steps[k])
}

/// One step of any task keeps a run in order.
pub proof fn lemma_advance_keeps_order(
    world: World,
    tasks: Seq<Task>,
    config: ConfigurationView,
    k: int,
)
    requires
        in_order(world, tasks),
        names_are_distinct(tasks),
    ensures
        in_order(advance(world, tasks, config, k), tasks),
{
    let next = advance(world, tasks, config, k);
    if 0 <= k < tasks.len() {
        let task = tasks[k];
        assert(step_fits(world, task, world.steps[k]));
        match world.steps[k] {
            None => {
                assert(step_fits(next, task, next.steps[k]));
                assert forall|j: int| 0 <= j < tasks.len() implies step_fits(
                    next,
                    tasks[j],
                    #[trigger] next.steps[j],
                ) by {
                    if j != k {
                        assert(step_fits(world, tasks[j], world.steps[j]));
                    }
                }
            },
            Some(StepView::Perform { effect, pending }) => {
                if effect is CreateDirectory {
                    lemma_resolution_keeps_note_paths(
                        world.index,
                        task.id,
                        config.notes_dir,
                        task.date,
                    );
                    assert(step_fits(next, task, next.steps[k]));
                    assert forall|j: int| 0 <= j < tasks.len() implies step_fits(
                        next,
                        tasks[j],
                        #[trigger] next.steps[j],
                    ) by {
                        if j != k {
                            assert(step_fits(world, tasks[j], world.steps[j]));
                        }
                    }
                } else {
                    assert(next.index == world.index);
                    assert(step_fits(next, task, next.steps[k]));
                    assert forall|j: int| 0 <= j < tasks.len() implies step_fits(
                        next,
                        tasks[j],
                        #[trigger] next.steps[j],
                    ) by {
                        if j != k {
                            assert(step_fits(world, tasks[j], world.steps[j]));
                            if world.index.contains_key(tasks[j].id) {
                                lemma_index_keeps_notes_apart(world.index, tasks[j].id, task.id);
                            }
                        }
                    }
                }
            },
            Some(StepView::Reply { response, failure }) => {},
        }
    }
}

/// Every schedule keeps a run that begins in order in order.
pub proof fn lemma_run_keeps_order(
    world: World,
    tasks: Seq<Task>,
    config: ConfigurationView,
    schedule: Seq<int>,
)
    requires
        in_order(world, tasks),
        names_are_distinct(tasks),
    ensures
        in_order(run(world, tasks, config, schedule), tasks),
    decreases schedule.len(),
{
    if schedule.len() > 0 {
        lemma_run_keeps_order(world, tasks, config, schedule.drop_last());
        lemma_advance_keeps_order(
            run(world, tasks, config, schedule.drop_last()),
            tasks,
            config,
            schedule.last(),
        );
    }
}

/// Every id on record was on record in `before` or is the id of a task.
pub open spec fn only_task_ids_added(
    index: Map<Seq<char>, Seq<char>>,
    before: Map<Seq<char>, Seq<char>>,
    tasks: Seq<Task>,
) -> bool {
    forall|id: Seq<char>| #[trigger]
        index.contains_key(id) ==> before.contains_key(id) || exists|k: int|
            0 <= k < tasks.len() && (#[trigger] tasks[k]).id == id
}

/// A run enters no id in the index but the ids of its tasks.
pub proof fn lemma_run_adds_only_task_ids(
    world: World,
    tasks: Seq<Task>,
    config: ConfigurationView,
    schedule: Seq<int>,
)
    requires
        in_order(world, tasks),
        names_are_distinct(tasks),
    ensures
        only_task_ids_added(run(world, tasks, config, schedule).index, world.index, tasks),
    decreases schedule.len(),
{
    if schedule.len() > 0 {
        let before = run(world, tasks, config, schedule.drop_last());
        let k = schedule.last();
        lemma_run_adds_only_task_ids(world, tasks, config, schedule.drop_last());
        lemma_run_keeps_order(world, tasks, config, schedule.drop_last());
        let after = advance(before, tasks, config, k);
        assert forall|id: Seq<char>| #[trigger] after.index.contains_key(id) implies (
        world.index.contains_key(id) || exists|j: int|
            0 <= j < tasks.len() && (#[trigger] tasks[j]).id == id) by {
            if !before.index.contains_key(id) {
                assert(0 <= k < tasks.len());
                assert(step_fits(before, tasks[k], before.steps[k]));
                assert(tasks[k].id == id);
            }
        }
    }
}

/// The number of steps that `schedule` gives to task `k`.
pub open spec fn turns(schedule: Seq<int>, k: int) -> nat
    decreases schedule.len(),
{
    if schedule.len() == 0 {
        0
    } else if schedule.last() == k {
        turns(schedule.drop_last(), k) + 1
    } else {
        turns(schedule.drop_last(), k)
    }
}

/// How far the request of a task has come: 0 before it begins, 1 while it
/// waits for its directory, 2 while it writes, 3 once it is answered.
pub open spec fn progress(step: Option<StepView>) -> nat {
    match step {
        None => 0,
        Some(StepView::Perform { effect, pending }) => if effect is CreateDirectory {
            1
        } else {
            2
        },
        Some(StepView::Reply { response, failure }) => 3,
    }
}

/// Each step that a task is given brings its request forward, until it is
/// answered: after `n` steps the request has come at least as far as `n`,
/// or is answered.
pub proof fn lemma_turns_bring_progress(
    world: World,
    tasks: Seq<Task>,
    config: ConfigurationView,
    schedule: Seq<int>,
    k: int,
)
    requires
        in_order(world, tasks),
        names_are_distinct(tasks),
        0 <= k < tasks.len(),
    ensures
        progress(run(world, tasks, config, schedule).steps[k]) >= 3 || progress(
            run(world, tasks, config, schedule).steps[k],
        ) >= progress(world.steps[k]) + turns(schedule, k),
    decreases schedule.len(),
{
    if schedule.len() > 0 {
        let before = run(world, tasks, config, schedule.drop_last());
        let j = schedule.last();
        lemma_turns_bring_progress(world, tasks, config, schedule.drop_last(), k);
        lemma_run_keeps_order(world, tasks, config, schedule.drop_last());
        lemma_advance_keeps_order(before, tasks, config, j);
        let after = advance(before, tasks, config, j);
        assert(step_fits(before, tasks[k], before.steps[k]));
        assert(step_fits(after, tasks[k], after.steps[k]));
        if j != k {
            assert(progress(after.steps[k]) >= progress(before.steps[k]));
        }
    }
}

/// Notes with distinct names that are stored at once do not disturb each
/// other. Whatever the schedule, whatever the index holds at the start and
/// whatever files exist: each request that has been answered was answered
/// with status 200, and the file on record for its id holds exactly its
/// own content; any two of the tasks that are on record have different
/// files; a request is answered once it has been given three steps; and
/// the index has gained no id but those of the tasks.
pub proof fn lemma_notes_stored_at_once_stay_apart(
    index: Map<Seq<char>, Seq<char>>,
    files: Map<Seq<char>, Seq<u8>>,
    tasks: Seq<Task>,
    config: ConfigurationView,
    schedule: Seq<int>,
)
    requires
        entries_are_note_paths(index),
        names_are_distinct(tasks),
    ensures
        ({
            let end = run(initial_world(index, files, tasks), tasks, config, schedule);
            &&& end.steps.len() == tasks.len()
            &&& forall|k: int|
                0 <= k < tasks.len() && is_answered(#[trigger] end.steps[k]) ==> is_stored(
                    end,
                    tasks[k],
                    end.steps[k]->0,
                )
            &&& forall|j: int, k: int|
                0 <= j < tasks.len() && 0 <= k < tasks.len() && j != k && end.index.contains_key(
                    #[trigger] tasks[j].id,
                ) && end.index.contains_key(#[trigger] tasks[k].id) ==> end.index[tasks[j].id]
                    != end.index[tasks[k].id]
            &&& forall|k: int|
                0 <= k < tasks.len() && turns(schedule, k) >= 3 ==> is_answered(
                    #[trigger] end.steps[k],
                )
            &&& only_task_ids_added(end.index, index, tasks)
        }),
{
    let start = initial_world(index, files, tasks);
    assert(in_order(start, tasks));
    lemma_run_keeps_order(start, tasks, config, schedule);
    lemma_run_adds_only_task_ids(start, tasks, config, schedule);
    assert forall|k: int| 0 <= k < tasks.len() && turns(schedule, k) >= 3 implies is_answered(
        #[trigger] run(start, tasks, config, schedule).steps[k],
    ) by {
        lemma_turns_bring_progress(start, tasks, config, schedule, k);
    }
    let end = run(start, tasks, config, schedule);
    assert forall|k: int|
        0 <= k < tasks.len() && is_answered(#[trigger] end.steps[k]) implies is_stored(
        end,
        tasks[k],
        end.steps[k]->0,
    ) by {
        assert(step_fits(end, tasks[k], end.steps[k]));
    }
    assert forall|j: int, k: int|
        0 <= j < tasks.len() && 0 <= k < tasks.len() && j != k && end.index.contains_key(
            #[trigger] tasks[j].id,
        ) && end.index.contains_key(#[trigger] tasks[k].id) implies end.index[tasks[j].id]
            != end.index[tasks[k].id] by {
        lemma_index_keeps_notes_apart(end.index, tasks[j].id, tasks[k].id);
    }
}

} // verus!
