//! What holds of every run of a pipeline.

use crate::engine::pipeline::action_name_spec;
use crate::engine::pipeline::execute_follows;
use crate::engine::pipeline::lemma_phase_names;
use crate::engine::pipeline::idle_control;
use crate::engine::pipeline::phase_relates;
use crate::engine::pipeline::phase_trace;
use crate::engine::pipeline::step_at;
use crate::engine::pipeline::step_follows;
use crate::engine::pipeline::timing_views;
use crate::engine::pipeline::ActionTimingView;
use crate::engine::pipeline::OnErrorFn;
use crate::engine::pipeline::PipelineResult;
use crate::engine::pipeline::PipelineView;
use crate::engine::pipeline::RegisteredActionKind;
use crate::engine::pipeline::RegisteredActionView;
use crate::engine::pipeline::RunState;
use crate::engine::pipeline::RunTrace;
use crate::engine::pipeline::StepAction;
use crate::engine::pipeline::StepControl;
use crate::engine::pipeline::StepTrace;
use crate::engine::pipeline::UnaryOperator;
use vstd::prelude::*;

verus! {

/// A phase that does not stop on a short-circuit runs every one of its
/// actions: its trace has one step for each action, whatever the state in
/// which the phase starts and whatever the steps do. This is the case of the
/// `pre` and the `post` phase.
pub proof fn lemma_unstoppable_phase_runs_every_action<
    C: Clone,
    U: UnaryOperator<C>,
    K: StepAction<C, H>,
    H: OnErrorFn<C>,
>(
    short_circuit_on_exception: bool,
    phase: Seq<char>,
    actions: Seq<RegisteredActionView<U, K>>,
    states: Seq<RunState<C, H>>,
)
    requires
        phase_trace(short_circuit_on_exception, phase, actions, false, states),
    ensures
        states.len() == actions.len() + 1,
        forall|i: int|
            0 <= i < actions.len() ==> #[trigger] step_at(
                short_circuit_on_exception,
                phase,
                actions,
                states,
                i,
            ),
{
}

/// In a phase that stops on a short-circuit, the step that leaves the flag
/// set is the last one that runs: if the flag is set after step `i`, the
/// trace ends with the state after step `i`.
pub proof fn lemma_short_circuit_halts_phase<
    C: Clone,
    U: UnaryOperator<C>,
    K: StepAction<C, H>,
    H: OnErrorFn<C>,
>(
    short_circuit_on_exception: bool,
    phase: Seq<char>,
    actions: Seq<RegisteredActionView<U, K>>,
    states: Seq<RunState<C, H>>,
    i: int,
)
    requires
        phase_trace(short_circuit_on_exception, phase, actions, true, states),
        0 <= i < states.len() - 1,
        states[i + 1].control@.short_circuited,
    ensures
        states.len() == i + 2,
{
    if i + 1 < states.len() - 1 {
        assert(!states[i + 1].control@.short_circuited);
    }
}

/// In a phase that stops on a short-circuit, every step but the last leaves
/// the flag clear, and the phase ends before its last action only with the
/// flag set.
pub proof fn lemma_stopping_phase_runs_until_flag<
    C: Clone,
    U: UnaryOperator<C>,
    K: StepAction<C, H>,
    H: OnErrorFn<C>,
>(
    short_circuit_on_exception: bool,
    phase: Seq<char>,
    actions: Seq<RegisteredActionView<U, K>>,
    states: Seq<RunState<C, H>>,
)
    requires
        phase_trace(short_circuit_on_exception, phase, actions, true, states),
    ensures
        forall|i: int| 1 <= i < states.len() - 1 ==> !(#[trigger] states[i]).control@.short_circuited,
        states.len() - 1 < actions.len() ==> states.last().control@.short_circuited,
{
}

/// Whether a controlled action leaves the records of the run alone: whatever
/// it does, the timings recorded so far and the step that the control is at
/// are afterwards what they were before. Every unary action does, as it
/// never sees the control.
pub open spec fn keeps_step_records<C, U, K: StepAction<C, H>, H>(
    action: RegisteredActionView<U, K>,
) -> bool {
    match action.kind {
        RegisteredActionKind::Unary(_) => true,
        RegisteredActionKind::StepAction(step_action) => forall|
            input: C,
            before: StepControl<H>,
            outcome: Result<C, String>,
            after: StepControl<H>,
        | #[trigger]
            step_action.produces(input, before, outcome, after) ==> {
                &&& after@.timings == before@.timings
                &&& after@.phase == before@.phase
                &&& after@.index == before@.index
                &&& after@.action_name == before@.action_name
            },
    }
}

/// A step whose action leaves the records alone adds exactly one timing, the
/// one of that step.
pub proof fn lemma_step_adds_its_timing<
    C: Clone,
    U: UnaryOperator<C>,
    K: StepAction<C, H>,
    H: OnErrorFn<C>,
>(
    short_circuit_on_exception: bool,
    phase: Seq<char>,
    index: usize,
    action: RegisteredActionView<U, K>,
    ctx: C,
    control: StepControl<H>,
    trace: StepTrace<C, H>,
    next: C,
    control_after: StepControl<H>,
)
    requires
        step_follows(
            short_circuit_on_exception,
            phase,
            index,
            action,
            ctx,
            control,
            trace,
            next,
            control_after,
        ),
        keeps_step_records::<C, U, K, H>(action),
    ensures
        control_after@.timings == control@.timings.push(
            ActionTimingView {
                phase,
                index,
                action_name: action_name_spec(phase, index as nat, action.name),
                elapsed_nanos: trace.elapsed,
                success: trace.outcome is Ok,
            },
        ),
{
}

/// Whether `timing` is a timing of step `index` of `phase`, run by an action
/// named `name`.
pub open spec fn timing_of_step(
    timing: ActionTimingView,
    phase: Seq<char>,
    index: int,
    name: Seq<char>,
) -> bool {
    &&& timing.phase == phase
    &&& timing.index == index
    &&& timing.action_name == action_name_spec(phase, index as nat, name)
}

/// Whether `after` is `before` followed by one timing for each of the first
/// `count` actions, in order.
pub open spec fn timings_extended<U, K>(
    before: Seq<ActionTimingView>,
    phase: Seq<char>,
    actions: Seq<RegisteredActionView<U, K>>,
    count: int,
    after: Seq<ActionTimingView>,
) -> bool {
    &&& after.len() == before.len() + count
    &&& after.subrange(0, before.len() as int) == before
    &&& forall|j: int|
        0 <= j < count ==> timing_of_step(
            #[trigger] after[before.len() + j],
            phase,
            j,
            actions[j].name,
        )
}

/// The first `upto` steps of a phase whose actions leave the records alone
/// add one timing each, in order.
pub proof fn lemma_phase_prefix_adds_timings<
    C: Clone,
    U: UnaryOperator<C>,
    K: StepAction<C, H>,
    H: OnErrorFn<C>,
>(
    short_circuit_on_exception: bool,
    phase: Seq<char>,
    actions: Seq<RegisteredActionView<U, K>>,
    stop_on_short_circuit: bool,
    states: Seq<RunState<C, H>>,
    upto: int,
)
    requires
        phase_trace(short_circuit_on_exception, phase, actions, stop_on_short_circuit, states),
        forall|i: int| 0 <= i < actions.len() ==> keeps_step_records::<C, U, K, H>(#[trigger] actions[i]),
        actions.len() <= usize::MAX,
        0 <= upto < states.len(),
    ensures
        timings_extended(
            states[0].control@.timings,
            phase,
            actions,
            upto,
            states[upto].control@.timings,
        ),
    decreases upto,
{
    let before = states[0].control@.timings;
    if upto == 0 {
        assert(before.subrange(0, before.len() as int) =~= before);
    } else {
        lemma_phase_prefix_adds_timings(
            short_circuit_on_exception,
            phase,
            actions,
            stop_on_short_circuit,
            states,
            upto - 1,
        );
        let i = upto - 1;
        assert(step_at(short_circuit_on_exception, phase, actions, states, i));
        let trace = choose|trace: StepTrace<C, H>| #[trigger]
            step_follows(
                short_circuit_on_exception,
                phase,
                i as usize,
                actions[i],
                states[i].ctx,
                states[i].control,
                trace,
                states[i + 1].ctx,
                states[i + 1].control,
            );
        lemma_step_adds_its_timing(
            short_circuit_on_exception,
            phase,
            i as usize,
            actions[i],
            states[i].ctx,
            states[i].control,
            trace,
            states[i + 1].ctx,
            states[i + 1].control,
        );
        let middle = states[i].control@.timings;
        let after = states[upto].control@.timings;
        assert(after.subrange(0, before.len() as int) =~= middle.subrange(0, before.len() as int));
        assert forall|j: int| 0 <= j < upto implies timing_of_step(
            #[trigger] after[before.len() + j],
            phase,
            j,
            actions[j].name,
        ) by {
            if j < i {
                assert(after[before.len() + j] == middle[before.len() + j]);
            }
        }
    }
}

/// Every run times each of its post actions: whatever the `pre` and `main`
/// phases did, whether they failed or were cut short, the timings of the
/// result end with one timing for each post action, in the order of the
/// actions, provided the post actions leave the records of the run alone.
pub proof fn lemma_post_phase_times_every_action<
    C: Clone,
    U: UnaryOperator<C>,
    K: StepAction<C, H>,
    H: OnErrorFn<C>,
>(pipeline: PipelineView<U, K, H>, input: C, run: RunTrace<C, H>, result: PipelineResult<C>)
    requires
        execute_follows(pipeline, input, run, result),
        pipeline.post_actions.len() <= usize::MAX,
        forall|i: int|
            0 <= i < pipeline.post_actions.len() ==> keeps_step_records::<C, U, K, H>(
                #[trigger] pipeline.post_actions[i],
            ),
    ensures
        timings_extended(
            run.after_main.control@.timings,
            "post"@,
            pipeline.post_actions,
            pipeline.post_actions.len() as int,
            timing_views(result.timings@),
        ),
{
    let states = choose|states: Seq<RunState<C, H>>|
        {
            &&& phase_trace(
                pipeline.short_circuit_on_exception,
                "post"@,
                pipeline.post_actions,
                false,
                states,
            )
            &&& states[0] == run.after_main
            &&& states.last() == run.after_post
        };
    lemma_phase_prefix_adds_timings(
        pipeline.short_circuit_on_exception,
        "post"@,
        pipeline.post_actions,
        false,
        states,
        states.len() - 1,
    );
}

/// The number of timings among `timings` that were recorded in `phase`.
pub open spec fn timings_in_phase(timings: Seq<ActionTimingView>, phase: Seq<char>) -> nat
    decreases timings.len(),
{
    if timings.len() == 0 {
        0
    } else if timings.last().phase == phase {
        timings_in_phase(timings.drop_last(), phase) + 1
    } else {
        timings_in_phase(timings.drop_last(), phase)
    }
}

/// Timings that were extended by `count` timings of one phase hold `count`
/// more timings of that phase, and as many of every other phase as before.
pub proof fn lemma_extended_timings_count<U, K>(
    before: Seq<ActionTimingView>,
    phase: Seq<char>,
    actions: Seq<RegisteredActionView<U, K>>,
    count: int,
    after: Seq<ActionTimingView>,
    counted: Seq<char>,
)
    requires
        0 <= count,
        timings_extended(before, phase, actions, count, after),
    ensures
        timings_in_phase(after, counted) == timings_in_phase(before, counted) + if phase
            == counted {
            count
        } else {
            0
        },
    decreases count,
{
    if count == 0 {
        assert(after.subrange(0, before.len() as int) =~= after);
    } else {
        let shorter = after.drop_last();
        assert(shorter.subrange(0, before.len() as int) =~= after.subrange(0, before.len() as int));
        assert forall|j: int| 0 <= j < count - 1 implies timing_of_step(
            #[trigger] shorter[before.len() + j],
            phase,
            j,
            actions[j].name,
        ) by {
            assert(shorter[before.len() + j] == after[before.len() + j]);
        }
        lemma_extended_timings_count(before, phase, actions, count - 1, shorter, counted);
        assert(timing_of_step(after[before.len() + (count - 1)], phase, count - 1, actions[count - 1].name));
        assert(after.last() == after[before.len() + (count - 1)]);
    }
}

/// A phase whose actions leave the records alone adds one timing of its own
/// phase for each step it takes, and none of another phase.
pub proof fn lemma_phase_timings_count<
    C: Clone,
    U: UnaryOperator<C>,
    K: StepAction<C, H>,
    H: OnErrorFn<C>,
>(
    short_circuit_on_exception: bool,
    phase: Seq<char>,
    actions: Seq<RegisteredActionView<U, K>>,
    stop_on_short_circuit: bool,
    start: RunState<C, H>,
    end: RunState<C, H>,
    counted: Seq<char>,
)
    requires
        phase_relates(short_circuit_on_exception, phase, actions, stop_on_short_circuit, start, end),
        forall|i: int| 0 <= i < actions.len() ==> keeps_step_records::<C, U, K, H>(#[trigger] actions[i]),
        actions.len() <= usize::MAX,
        phase != counted || !stop_on_short_circuit,
    ensures
        timings_in_phase(end.control@.timings, counted) == timings_in_phase(
            start.control@.timings,
            counted,
        ) + if phase == counted {
            actions.len()
        } else {
            0
        },
{
    let states = choose|states: Seq<RunState<C, H>>|
        {
            &&& phase_trace(
                short_circuit_on_exception,
                phase,
                actions,
                stop_on_short_circuit,
                states,
            )
            &&& states[0] == start
            &&& states.last() == end
        };
    lemma_phase_prefix_adds_timings(
        short_circuit_on_exception,
        phase,
        actions,
        stop_on_short_circuit,
        states,
        states.len() - 1,
    );
    lemma_extended_timings_count(
        start.control@.timings,
        phase,
        actions,
        states.len() - 1,
        end.control@.timings,
        counted,
    );
}

/// In every run of a pipeline whose actions leave the records of the run
/// alone, the timings of the `post` phase are as many as the post actions:
/// whatever failed, and wherever the run was cut short, each post action was
/// timed once, and no other step was timed under the `post` phase.
pub proof fn lemma_post_timings_are_as_many_as_post_actions<
    C: Clone,
    U: UnaryOperator<C>,
    K: StepAction<C, H>,
    H: OnErrorFn<C>,
>(pipeline: PipelineView<U, K, H>, input: C, run: RunTrace<C, H>, result: PipelineResult<C>)
    requires
        execute_follows(pipeline, input, run, result),
        pipeline.pre_actions.len() <= usize::MAX,
        pipeline.actions.len() <= usize::MAX,
        pipeline.post_actions.len() <= usize::MAX,
        forall|i: int|
            0 <= i < pipeline.pre_actions.len() ==> keeps_step_records::<C, U, K, H>(
                #[trigger] pipeline.pre_actions[i],
            ),
        forall|i: int|
            0 <= i < pipeline.actions.len() ==> keeps_step_records::<C, U, K, H>(
                #[trigger] pipeline.actions[i],
            ),
        forall|i: int|
            0 <= i < pipeline.post_actions.len() ==> keeps_step_records::<C, U, K, H>(
                #[trigger] pipeline.post_actions[i],
            ),
    ensures
        timings_in_phase(timing_views(result.timings@), "post"@) == pipeline.post_actions.len(),
        timings_in_phase(timing_views(result.timings@), "pre"@) == pipeline.pre_actions.len(),
{
    lemma_phase_names();
    let policy = pipeline.short_circuit_on_exception;
    let fresh = RunState { ctx: input, control: run.fresh };
    assert(run.fresh@.timings == idle_control(pipeline.name).timings);
    assert(timings_in_phase(run.fresh@.timings, "post"@) == 0);
    assert(timings_in_phase(run.fresh@.timings, "pre"@) == 0);
    lemma_phase_timings_count(policy, "pre"@, pipeline.pre_actions, false, fresh, run.after_pre, "post"@);
    lemma_phase_timings_count(policy, "pre"@, pipeline.pre_actions, false, fresh, run.after_pre, "pre"@);
    if !run.after_pre.control@.short_circuited {
        lemma_phase_timings_count(
            policy,
            "main"@,
            pipeline.actions,
            true,
            run.after_pre,
            run.after_main,
            "post"@,
        );
        lemma_phase_timings_count(
            policy,
            "main"@,
            pipeline.actions,
            true,
            run.after_pre,
            run.after_main,
            "pre"@,
        );
    }
    lemma_phase_timings_count(
        policy,
        "post"@,
        pipeline.post_actions,
        false,
        run.after_main,
        run.after_post,
        "post"@,
    );
    lemma_phase_timings_count(
        policy,
        "post"@,
        pipeline.post_actions,
        false,
        run.after_main,
        run.after_post,
        "pre"@,
    );
}

/// Whether a controlled action leaves a short-circuit that was requested in
/// force: whatever it does, a flag that was set before it is set after it.
/// Every unary action does, as it never sees the control.
pub open spec fn keeps_short_circuit<C, U, K: StepAction<C, H>, H>(
    action: RegisteredActionView<U, K>,
) -> bool {
    match action.kind {
        RegisteredActionKind::Unary(_) => true,
        RegisteredActionKind::StepAction(step_action) => forall|
            input: C,
            before: StepControl<H>,
            outcome: Result<C, String>,
            after: StepControl<H>,
        | #[trigger]
            step_action.produces(input, before, outcome, after) ==> (before@.short_circuited
                ==> after@.short_circuited),
    }
}

/// The first steps of a phase whose actions leave a short-circuit in force
/// leave it in force: if the flag is set when the phase starts, it is set
/// after each step.
pub proof fn lemma_phase_keeps_short_circuit<
    C: Clone,
    U: UnaryOperator<C>,
    K: StepAction<C, H>,
    H: OnErrorFn<C>,
>(
    short_circuit_on_exception: bool,
    phase: Seq<char>,
    actions: Seq<RegisteredActionView<U, K>>,
    stop_on_short_circuit: bool,
    states: Seq<RunState<C, H>>,
    upto: int,
)
    requires
        phase_trace(short_circuit_on_exception, phase, actions, stop_on_short_circuit, states),
        forall|i: int| 0 <= i < actions.len() ==> keeps_short_circuit::<C, U, K, H>(#[trigger] actions[i]),
        states[0].control@.short_circuited,
        0 <= upto < states.len(),
    ensures
        states[upto].control@.short_circuited,
    decreases upto,
{
    if upto > 0 {
        lemma_phase_keeps_short_circuit(
            short_circuit_on_exception,
            phase,
            actions,
            stop_on_short_circuit,
            states,
            upto - 1,
        );
        let i = upto - 1;
        assert(step_at(short_circuit_on_exception, phase, actions, states, i));
        assert(keeps_short_circuit::<C, U, K, H>(actions[i]));
    }
}

/// A short-circuit that is in force when the `post` phase starts reaches the
/// result: in every run whose post actions leave a short-circuit in force,
/// a flag that a step of `pre` or `main` has left set is the flag of the
/// result.
pub proof fn lemma_short_circuit_reaches_the_result<
    C: Clone,
    U: UnaryOperator<C>,
    K: StepAction<C, H>,
    H: OnErrorFn<C>,
>(pipeline: PipelineView<U, K, H>, input: C, run: RunTrace<C, H>, result: PipelineResult<C>)
    requires
        execute_follows(pipeline, input, run, result),
        run.after_main.control@.short_circuited,
        forall|i: int|
            0 <= i < pipeline.post_actions.len() ==> keeps_short_circuit::<C, U, K, H>(
                #[trigger] pipeline.post_actions[i],
            ),
    ensures
        result.short_circuited,
{
    let states = choose|states: Seq<RunState<C, H>>|
        {
            &&& phase_trace(
                pipeline.short_circuit_on_exception,
                "post"@,
                pipeline.post_actions,
                false,
                states,
            )
            &&& states[0] == run.after_main
            &&& states.last() == run.after_post
        };
    lemma_phase_keeps_short_circuit(
        pipeline.short_circuit_on_exception,
        "post"@,
        pipeline.post_actions,
        false,
        states,
        states.len() - 1,
    );
}

/// A run whose `pre` phase leaves the flag set skips the `main` phase: the
/// state after `main` is the state after `pre`. A run whose `pre` phase
/// leaves the flag clear runs `main` until a step leaves the flag set.
pub proof fn lemma_main_runs_unless_short_circuited<
    C: Clone,
    U: UnaryOperator<C>,
    K: StepAction<C, H>,
    H: OnErrorFn<C>,
>(pipeline: PipelineView<U, K, H>, input: C, run: RunTrace<C, H>, result: PipelineResult<C>)
    requires
        execute_follows(pipeline, input, run, result),
    ensures
        run.after_pre.control@.short_circuited ==> run.after_main == run.after_pre,
        !run.after_pre.control@.short_circuited ==> phase_relates(
            pipeline.short_circuit_on_exception,
            "main"@,
            pipeline.actions,
            true,
            run.after_pre,
            run.after_main,
        ),
{
}

/// A short-circuit in the `main` phase halts that phase and nothing else: in
/// a run whose `main` phase takes the steps of `main_states`, if step `k`
/// leaves the flag set, then the steps `0` to `k` are all the steps that
/// `main` takes, the `post` phase starts from the state that step `k` left,
/// and, where the post actions leave a short-circuit in force, the result
/// carries the flag.
pub proof fn lemma_short_circuit_in_main<
    C: Clone,
    U: UnaryOperator<C>,
    K: StepAction<C, H>,
    H: OnErrorFn<C>,
>(
    pipeline: PipelineView<U, K, H>,
    input: C,
    run: RunTrace<C, H>,
    result: PipelineResult<C>,
    main_states: Seq<RunState<C, H>>,
    k: int,
)
    requires
        execute_follows(pipeline, input, run, result),
        phase_trace(
            pipeline.short_circuit_on_exception,
            "main"@,
            pipeline.actions,
            true,
            main_states,
        ),
        main_states.last() == run.after_main,
        0 <= k < main_states.len() - 1,
        main_states[k + 1].control@.short_circuited,
        forall|i: int|
            0 <= i < pipeline.post_actions.len() ==> keeps_short_circuit::<C, U, K, H>(
                #[trigger] pipeline.post_actions[i],
            ),
    ensures
        main_states.len() == k + 2,
        run.after_main == main_states[k + 1],
        result.short_circuited,
{
    lemma_short_circuit_halts_phase(
        pipeline.short_circuit_on_exception,
        "main"@,
        pipeline.actions,
        main_states,
        k,
    );
    lemma_short_circuit_reaches_the_result(pipeline, input, run, result);
}

} // verus!
