//! The execution engine: records, the run-scoped control, the two shapes of
//! action, and the phased run of a pipeline.

use crate::clock::nanos_since;
use crate::text::concat2;
use crate::text::decimal_digits;
use crate::text::decimal_string;
use crate::text::lemma_empty_literal;
use crate::text::str_eq;
use std::sync::Arc;
use std::time::Instant;
use vstd::prelude::*;
use vstd::string::*;

verus! {

/// One failed step: where it failed and what the failure said.
#[derive(Debug, PartialEq, Eq)]
pub struct PipelineError {
    pub pipeline: String,
    pub phase: String,
    pub index: usize,
    pub action_name: String,
    pub message: String,
}

/// The mathematical content of a [`PipelineError`].
pub struct PipelineErrorView {
    pub pipeline: Seq<char>,
    pub phase: Seq<char>,
    pub index: usize,
    pub action_name: Seq<char>,
    pub message: Seq<char>,
}

impl View for PipelineError {
    type V = PipelineErrorView;

    open spec fn view(&self) -> PipelineErrorView {
        PipelineErrorView {
            pipeline: self.pipeline@,
            phase: self.phase@,
            index: self.index,
            action_name: self.action_name@,
            message: self.message@,
        }
    }
}

impl Clone for PipelineError {
    fn clone(&self) -> (copy: Self)
        ensures
            copy == *self,
    {
        PipelineError {
            pipeline: self.pipeline.clone(),
            phase: self.phase.clone(),
            index: self.index,
            action_name: self.action_name.clone(),
            message: self.message.clone(),
        }
    }
}

/// One executed step: where it ran, how long it took, whether it succeeded.
#[derive(Debug, PartialEq, Eq)]
pub struct ActionTiming {
    pub phase: String,
    pub index: usize,
    pub action_name: String,
    pub elapsed_nanos: u128,
    pub success: bool,
}

/// The mathematical content of an [`ActionTiming`].
pub struct ActionTimingView {
    pub phase: Seq<char>,
    pub index: usize,
    pub action_name: Seq<char>,
    pub elapsed_nanos: u128,
    pub success: bool,
}

impl View for ActionTiming {
    type V = ActionTimingView;

    open spec fn view(&self) -> ActionTimingView {
        ActionTimingView {
            phase: self.phase@,
            index: self.index,
            action_name: self.action_name@,
            elapsed_nanos: self.elapsed_nanos,
            success: self.success,
        }
    }
}

impl Clone for ActionTiming {
    fn clone(&self) -> (copy: Self)
        ensures
            copy == *self,
    {
        ActionTiming {
            phase: self.phase.clone(),
            index: self.index,
            action_name: self.action_name.clone(),
            elapsed_nanos: self.elapsed_nanos,
            success: self.success,
        }
    }
}

/// The views of a list of errors, in order.
pub open spec fn error_views(errors: Seq<PipelineError>) -> Seq<PipelineErrorView> {
    errors.map_values(|e: PipelineError| e@)
}

/// The views of a list of timings, in order.
pub open spec fn timing_views(timings: Seq<ActionTiming>) -> Seq<ActionTimingView> {
    timings.map_values(|t: ActionTiming| t@)
}

/// The prefix that a phase gives to the names of its steps: `pre` and `post`
/// for the phases of those names, `s` for every other phase.
pub open spec fn phase_prefix(phase: Seq<char>) -> Seq<char> {
    if phase == "pre"@ {
        "pre"@
    } else if phase == "post"@ {
        "post"@
    } else {
        "s"@
    }
}

/// The three phases have three names, and each has its own prefix.
pub proof fn lemma_phase_names()
    ensures
        "pre"@ != "post"@,
        "main"@ != "pre"@,
        "main"@ != "post"@,
        phase_prefix("pre"@) == "pre"@,
        phase_prefix("main"@) == "s"@,
        phase_prefix("post"@) == "post"@,
{
    reveal_strlit("pre");
    reveal_strlit("main");
    reveal_strlit("post");
    assert("pre"@.len() == 3);
    assert("main"@.len() == 4);
    assert("main"@[0] != "post"@[0]);
}

/// The display name of step `index` of `phase`: the phase's prefix, the index
/// in decimal and, where the action has a name, a colon and that name.
pub open spec fn action_name_spec(phase: Seq<char>, index: nat, name: Seq<char>) -> Seq<char> {
    if name.len() == 0 {
        phase_prefix(phase) + decimal_digits(index)
    } else {
        phase_prefix(phase) + decimal_digits(index) + seq![':'] + name
    }
}

/// Synthesizes the display name of a step.
pub fn format_action_name(phase: &str, index: usize, name: &str) -> (text: String)
    ensures
        text@ == action_name_spec(phase@, index as nat, name@),
{
    let prefix = if str_eq(phase, "pre") {
        "pre"
    } else if str_eq(phase, "post") {
        "post"
    } else {
        "s"
    };
    let digits = decimal_string(index);
    let mut text = concat2(prefix, digits.as_str());
    if name.is_empty() {
        return text;
    }
    proof {
        reveal_strlit(":");
    }
    text.append(":");
    text.append(name);
    assert(text@ =~= action_name_spec(phase@, index as nat, name@));
    text
}

/// Synthesizes the display name of a step; the same as [`format_action_name`].
pub fn format_step_name(phase: &str, index: usize, name: &str) -> (text: String)
    ensures
        text@ == action_name_spec(phase@, index as nat, name@),
{
    format_action_name(phase, index, name)
}

/// A failure handler: it receives the value as it was before the failing
/// step ran, with the record of the failure, and returns the value with which
/// the run goes on.
pub trait OnErrorFn<C> {
    /// Whether `recovered` is a value that the handler may return for `ctx`
    /// and `error`. A handler that does not say admits every value.
    open spec fn handles(&self, ctx: C, error: PipelineErrorView, recovered: C) -> bool {
        true
    }

    fn handle(&self, ctx: C, error: PipelineError) -> (recovered: C)
        ensures
            self.handles(ctx, error@, recovered),
    ;
}

/// The default failure handler: the failure is absorbed and the run goes on
/// with the value as it was before the failing step.
pub fn default_on_error<C>(ctx: C, error: PipelineError) -> (recovered: C)
    ensures
        recovered == ctx,
{
    ctx
}

/// The default failure handler as a handler type, for pipelines that never
/// replace it.
pub struct DefaultOnError;

impl<C> OnErrorFn<C> for DefaultOnError {
    open spec fn handles(&self, ctx: C, error: PipelineErrorView, recovered: C) -> bool {
        recovered == ctx
    }

    fn handle(&self, ctx: C, error: PipelineError) -> (recovered: C) {
        default_on_error(ctx, error)
    }
}

/// The state of one run, shared with the controlled actions.
pub struct StepControl<H> {
    pub pipeline_name: String,
    /// The pipeline's failure handler; `None` stands for the default handler.
    pub on_error: Option<Arc<H>>,
    pub errors: Vec<PipelineError>,
    pub timings: Vec<ActionTiming>,
    pub short_circuited: bool,
    pub phase: String,
    pub index: usize,
    pub action_name: String,
    pub run_start_instant: Option<Instant>,
}

/// The mathematical content of a [`StepControl`], but for its handler and the
/// clock reading it holds.
pub struct StepControlView {
    pub pipeline_name: Seq<char>,
    pub errors: Seq<PipelineErrorView>,
    pub timings: Seq<ActionTimingView>,
    pub short_circuited: bool,
    pub phase: Seq<char>,
    pub index: usize,
    pub action_name: Seq<char>,
    /// Whether the run's start has been read from the clock.
    pub started: bool,
}

impl<H> View for StepControl<H> {
    type V = StepControlView;

    open spec fn view(&self) -> StepControlView {
        StepControlView {
            pipeline_name: self.pipeline_name@,
            errors: error_views(self.errors@),
            timings: timing_views(self.timings@),
            short_circuited: self.short_circuited,
            phase: self.phase@,
            index: self.index,
            action_name: self.action_name@,
            started: self.run_start_instant is Some,
        }
    }
}

/// The control of a run of `pipeline_name` that has not begun.
pub open spec fn idle_control(pipeline_name: Seq<char>) -> StepControlView {
    StepControlView {
        pipeline_name,
        errors: Seq::empty(),
        timings: Seq::empty(),
        short_circuited: false,
        phase: "main"@,
        index: 0,
        action_name: "?"@,
        started: false,
    }
}

/// The record of a failure with `message` at the step that `control` is at.
pub open spec fn error_at(control: StepControlView, message: Seq<char>) -> PipelineErrorView {
    PipelineErrorView {
        pipeline: control.pipeline_name,
        phase: control.phase,
        index: control.index,
        action_name: control.action_name,
        message,
    }
}

/// The record of the time taken by the step that `control` is at.
pub open spec fn timing_at(control: StepControlView, elapsed_nanos: u128, success: bool) -> ActionTimingView {
    ActionTimingView {
        phase: control.phase,
        index: control.index,
        action_name: control.action_name,
        elapsed_nanos,
        success,
    }
}

/// Whether `recovered` is a value with which a run under `on_error` may go on
/// after `error`, where `ctx` is the value from before the failing step.
pub open spec fn recovers<C, H: OnErrorFn<C>>(
    on_error: Option<Arc<H>>,
    ctx: C,
    error: PipelineErrorView,
    recovered: C,
) -> bool {
    match on_error {
        Some(handler) => handler.handles(ctx, error, recovered),
        None => recovered == ctx,
    }
}

impl<H> StepControl<H> {
    /// Whether `self` holds the handler and the clock reading that `other` holds.
    pub open spec fn same_handler_and_start(&self, other: &Self) -> bool {
        &&& self.on_error == other.on_error
        &&& self.run_start_instant == other.run_start_instant
    }

    /// The control of a run that has not begun.
    pub fn new(pipeline_name: &str, on_error: Option<Arc<H>>) -> (control: Self)
        ensures
            control@ == idle_control(pipeline_name@),
            control.on_error == on_error,
    {
        let control = StepControl {
            pipeline_name: String::from_str(pipeline_name),
            on_error,
            errors: Vec::new(),
            timings: Vec::new(),
            short_circuited: false,
            phase: String::from_str("main"),
            index: 0,
            action_name: String::from_str("?"),
            run_start_instant: None,
        };
        assert(control@.errors =~= Seq::empty());
        assert(control@.timings =~= Seq::empty());
        control
    }

    /// Notes the step that is about to run.
    pub fn begin_step(&mut self, phase: &str, index: usize, action_name: String)
        ensures
            final(self)@ == (StepControlView {
                phase: phase@,
                index,
                action_name: action_name@,
                ..old(self)@
            }),
            final(self).same_handler_and_start(old(self)),
    {
        self.phase = String::from_str(phase);
        self.index = index;
        self.action_name = action_name;
    }

    /// Reads the clock as the start of the run.
    pub fn begin_run(&mut self)
        ensures
            final(self)@ == (StepControlView { started: true, ..old(self)@ }),
            final(self).on_error == old(self).on_error,
    {
        self.run_start_instant = Some(Instant::now());
    }

    /// Returns the control to the state of a run that has not begun; the
    /// pipeline's name and the handler stay.
    pub fn reset(&mut self)
        ensures
            final(self)@ == idle_control(old(self)@.pipeline_name),
            final(self).on_error == old(self).on_error,
    {
        self.short_circuited = false;
        self.errors.clear();
        self.timings.clear();
        self.phase = String::from_str("main");
        self.index = 0;
        self.action_name = String::from_str("?");
        self.run_start_instant = None;
        assert(self@.errors =~= Seq::empty());
        assert(self@.timings =~= Seq::empty());
    }

    /// Requests that the remaining steps of the main phase be skipped.
    pub fn short_circuit(&mut self)
        ensures
            final(self)@ == (StepControlView { short_circuited: true, ..old(self)@ }),
            final(self).same_handler_and_start(old(self)),
    {
        self.short_circuited = true;
    }

    pub fn is_short_circuited(&self) -> (flag: bool)
        ensures
            flag == self@.short_circuited,
    {
        self.short_circuited
    }

    /// Appends the record of a failure of the current step and hands the
    /// value to the failure handler; what the handler returns is returned.
    pub fn record_error<C>(&mut self, ctx: C, message: String) -> (recovered: C) where
        H: OnErrorFn<C>,

        ensures
            final(self)@ == (StepControlView {
                errors: old(self)@.errors.push(error_at(old(self)@, message@)),
                ..old(self)@
            }),
            final(self).same_handler_and_start(old(self)),
            recovers(old(self).on_error, ctx, error_at(old(self)@, message@), recovered),
    {
        let pipeline_error = PipelineError {
            pipeline: self.pipeline_name.clone(),
            phase: self.phase.clone(),
            index: self.index,
            action_name: self.action_name.clone(),
            message,
        };
        let handed = pipeline_error.clone();
        let ghost before = self.errors@;
        self.errors.push(pipeline_error);
        assert(error_views(self.errors@) =~= error_views(before).push(pipeline_error@));
        match &self.on_error {
            Some(handler) => handler.handle(ctx, handed),
            None => default_on_error(ctx, handed),
        }
    }

    /// Appends the record of the time taken by the current step.
    pub fn record_timing(&mut self, elapsed_nanos: u128, success: bool)
        ensures
            final(self)@ == (StepControlView {
                timings: old(self)@.timings.push(timing_at(old(self)@, elapsed_nanos, success)),
                ..old(self)@
            }),
            final(self).same_handler_and_start(old(self)),
    {
        let timing = ActionTiming {
            phase: self.phase.clone(),
            index: self.index,
            action_name: self.action_name.clone(),
            elapsed_nanos,
            success,
        };
        let ghost before = self.timings@;
        self.timings.push(timing);
        assert(timing_views(self.timings@) =~= timing_views(before).push(timing@));
    }

    /// The nanoseconds since the run began; 0 for a run that has not begun.
    pub fn run_elapsed_nanos(&self) -> (nanos: u128)
        ensures
            !self@.started ==> nanos == 0,
    {
        match &self.run_start_instant {
            Some(run_start_instant) => nanos_since(run_start_instant),
            None => 0,
        }
    }
}

/// An action that sees only the value.
pub trait UnaryOperator<C> {
    /// Whether `outcome` is a possible result of the action on `input`:
    /// `Ok` with the new value, or `Err` with the message of a failure.
    /// An action that does not say admits every outcome.
    open spec fn produces(&self, input: C, outcome: Result<C, String>) -> bool {
        true
    }

    fn apply(&self, input: C) -> (outcome: Result<C, String>)
        ensures
            self.produces(input, outcome),
    ;
}

/// An action that also sees, and may change, the control of the run.
pub trait StepAction<C, H> {
    /// Whether the action, started on `input` with the control as `before`,
    /// may end with `outcome` and the control as `after`.
    /// An action that does not say admits every outcome.
    open spec fn produces(
        &self,
        input: C,
        before: StepControl<H>,
        outcome: Result<C, String>,
        after: StepControl<H>,
    ) -> bool {
        true
    }

    fn apply(&self, input: C, control: &mut StepControl<H>) -> (outcome: Result<C, String>)
        ensures
            self.produces(input, *old(control), outcome, *final(control)),
    ;
}

/// `Arc::clone`: a second handle on the same allocation. The contract says
/// that the new handle holds the value that the first one holds.
#[verifier::external_body]
pub(crate) fn share<T>(handle: &Arc<T>) -> (shared: Arc<T>)
    ensures
        shared == *handle,
{
    Arc::clone(handle)
}

/// The two shapes of action.
pub enum RegisteredActionKind<U, K> {
    Unary(Arc<U>),
    StepAction(Arc<K>),
}

/// An action with its name; the empty name stands for "unnamed".
pub struct RegisteredAction<U, K> {
    pub name: String,
    pub kind: RegisteredActionKind<U, K>,
}

impl<U, K> Clone for RegisteredActionKind<U, K> {
    fn clone(&self) -> (copy: Self)
        ensures
            copy == *self,
    {
        match self {
            RegisteredActionKind::Unary(operator) => RegisteredActionKind::Unary(share(operator)),
            RegisteredActionKind::StepAction(action) => RegisteredActionKind::StepAction(
                share(action),
            ),
        }
    }
}

impl<U, K> Clone for RegisteredAction<U, K> {
    fn clone(&self) -> (copy: Self)
        ensures
            copy == *self,
    {
        RegisteredAction { name: self.name.clone(), kind: self.kind.clone() }
    }
}

/// The mathematical content of a [`RegisteredAction`].
pub struct RegisteredActionView<U, K> {
    pub name: Seq<char>,
    pub kind: RegisteredActionKind<U, K>,
}

impl<U, K> View for RegisteredAction<U, K> {
    type V = RegisteredActionView<U, K>;

    open spec fn view(&self) -> RegisteredActionView<U, K> {
        RegisteredActionView { name: self.name@, kind: self.kind }
    }
}

/// The views of a list of actions, in order.
pub open spec fn action_views<U, K>(actions: Seq<RegisteredAction<U, K>>) -> Seq<
    RegisteredActionView<U, K>,
> {
    actions.map_values(|a: RegisteredAction<U, K>| a@)
}

/// What happened inside one step, between the state before it and the state
/// after it.
pub struct StepTrace<C, H> {
    /// The copy of the value that was kept for the failure handler.
    pub saved: C,
    /// The control once the step was announced.
    pub began: StepControl<H>,
    /// What the action returned.
    pub outcome: Result<C, String>,
    /// The control once the action had returned.
    pub acted: StepControl<H>,
    /// The control once a failure, if any, was recorded.
    pub settled: StepControl<H>,
    /// The time the step took.
    pub elapsed: u128,
}

/// Whether `after` is `before` but for the step that it is at.
pub open spec fn step_announced<H>(
    before: StepControl<H>,
    phase: Seq<char>,
    index: usize,
    action_name: Seq<char>,
    after: StepControl<H>,
) -> bool {
    &&& after@ == (StepControlView { phase, index, action_name, ..before@ })
    &&& after.same_handler_and_start(&before)
}

/// Whether `after` is `before` with the failure `message` recorded at its
/// current step and, under the short-circuit policy, the flag set.
pub open spec fn failure_recorded<H>(
    short_circuit_on_exception: bool,
    before: StepControl<H>,
    message: Seq<char>,
    after: StepControl<H>,
) -> bool {
    &&& after@ == (StepControlView {
        errors: before@.errors.push(error_at(before@, message)),
        short_circuited: before@.short_circuited || short_circuit_on_exception,
        ..before@
    })
    &&& after.same_handler_and_start(&before)
}

/// Whether `after` is `before` with the time of its current step recorded.
pub open spec fn timing_recorded<H>(
    before: StepControl<H>,
    elapsed_nanos: u128,
    success: bool,
    after: StepControl<H>,
) -> bool {
    &&& after@ == (StepControlView {
        timings: before@.timings.push(timing_at(before@, elapsed_nanos, success)),
        ..before@
    })
    &&& after.same_handler_and_start(&before)
}

/// Whether step `index` of `phase`, which runs `action`, may lead from the
/// value `ctx` and the control `control` to `next` and `control_after`, with
/// `trace` as what happened in between:
/// the step is announced under its display name; a copy of the value is kept;
/// the action runs; on success its value is the next one and the control is
/// as the action left it; on failure the failure is recorded, the flag is set
/// under the policy, and the handler gives the next value from the copy;
/// last, the step's time is recorded, with success or failure.
pub open spec fn step_follows<C: Clone, U: UnaryOperator<C>, K: StepAction<C, H>, H: OnErrorFn<C>>(
    short_circuit_on_exception: bool,
    phase: Seq<char>,
    index: usize,
    action: RegisteredActionView<U, K>,
    ctx: C,
    control: StepControl<H>,
    trace: StepTrace<C, H>,
    next: C,
    control_after: StepControl<H>,
) -> bool {
    &&& step_announced(
        control,
        phase,
        index,
        action_name_spec(phase, index as nat, action.name),
        trace.began,
    )
    &&& cloned(ctx, trace.saved)
    &&& match action.kind {
        RegisteredActionKind::Unary(operator) => {
            &&& operator.produces(ctx, trace.outcome)
            &&& trace.acted == trace.began
        },
        RegisteredActionKind::StepAction(step_action) => step_action.produces(
            ctx,
            trace.began,
            trace.outcome,
            trace.acted,
        ),
    }
    &&& match trace.outcome {
        Ok(value) => {
            &&& next == value
            &&& trace.settled == trace.acted
        },
        Err(message) => {
            &&& failure_recorded(short_circuit_on_exception, trace.acted, message@, trace.settled)
            &&& recovers(
                trace.acted.on_error,
                trace.saved,
                error_at(trace.acted@, message@),
                next,
            )
        },
    }
    &&& timing_recorded(trace.settled, trace.elapsed, trace.outcome is Ok, control_after)
}

/// Whether one step may lead from the one state to the other.
pub open spec fn step_relates<C: Clone, U: UnaryOperator<C>, K: StepAction<C, H>, H: OnErrorFn<C>>(
    short_circuit_on_exception: bool,
    phase: Seq<char>,
    index: usize,
    action: RegisteredActionView<U, K>,
    ctx: C,
    control: StepControl<H>,
    next: C,
    control_after: StepControl<H>,
) -> bool {
    exists|trace: StepTrace<C, H>|
        step_follows(
            short_circuit_on_exception,
            phase,
            index,
            action,
            ctx,
            control,
            trace,
            next,
            control_after,
        )
}

/// Runs one step: announces it, runs the action, records a failure and asks
/// the handler if the action failed, and records the time.
pub fn run_step<C, U, K, H>(
    short_circuit_on_exception: bool,
    phase: &str,
    index: usize,
    action: &RegisteredAction<U, K>,
    ctx: C,
    control: &mut StepControl<H>,
) -> (next: C) where C: Clone, U: UnaryOperator<C>, K: StepAction<C, H>, H: OnErrorFn<C>
    ensures
        step_relates(
            short_circuit_on_exception,
            phase@,
            index,
            action@,
            ctx,
            *old(control),
            next,
            *final(control),
        ),
{
    let action_name = format_action_name(phase, index, action.name.as_str());
    control.begin_step(phase, index, action_name);
    let ghost began = *control;
    let step_start_instant = Instant::now();
    let saved = ctx.clone();
    let outcome = match &action.kind {
        RegisteredActionKind::Unary(operator) => operator.apply(ctx),
        RegisteredActionKind::StepAction(step_action) => step_action.apply(ctx, control),
    };
    let ghost acted = *control;
    let ghost observed = outcome;
    let step_succeeded: bool;
    let next: C;
    match outcome {
        Ok(value) => {
            step_succeeded = true;
            next = value;
        },
        Err(message) => {
            step_succeeded = false;
            next = control.record_error(saved, message);
            if short_circuit_on_exception {
                control.short_circuit();
            }
        },
    }
    let ghost settled = *control;
    let step_elapsed_nanos = nanos_since(&step_start_instant);
    control.record_timing(step_elapsed_nanos, step_succeeded);
    proof {
        let trace = StepTrace {
            saved,
            began,
            outcome: observed,
            acted,
            settled,
            elapsed: step_elapsed_nanos,
        };
        assert(step_follows(
            short_circuit_on_exception,
            phase@,
            index,
            action@,
            ctx,
            *old(control),
            trace,
            next,
            *control,
        ));
    }
    next
}

/// The value and the control at one point of a run.
pub struct RunState<C, H> {
    pub ctx: C,
    pub control: StepControl<H>,
}

/// Whether step `i` of the phase may lead from `states[i]` to `states[i + 1]`.
pub open spec fn step_at<C: Clone, U: UnaryOperator<C>, K: StepAction<C, H>, H: OnErrorFn<C>>(
    short_circuit_on_exception: bool,
    phase: Seq<char>,
    actions: Seq<RegisteredActionView<U, K>>,
    states: Seq<RunState<C, H>>,
    i: int,
) -> bool {
    step_relates(
        short_circuit_on_exception,
        phase,
        i as usize,
        actions[i],
        states[i].ctx,
        states[i].control,
        states[i + 1].ctx,
        states[i + 1].control,
    )
}

/// Whether `states` are the states of a run of one phase: `states[0]` is
/// where the phase starts, step `i` leads from `states[i]` to
/// `states[i + 1]`, and the last state is where the phase ends.
/// A phase that does not stop on a short-circuit runs every action. One that
/// does runs its actions in order until one leaves the flag set; the actions
/// after that one do not run.
pub open spec fn phase_trace<C: Clone, U: UnaryOperator<C>, K: StepAction<C, H>, H: OnErrorFn<C>>(
    short_circuit_on_exception: bool,
    phase: Seq<char>,
    actions: Seq<RegisteredActionView<U, K>>,
    stop_on_short_circuit: bool,
    states: Seq<RunState<C, H>>,
) -> bool {
    &&& 1 <= states.len() <= actions.len() + 1
    &&& forall|i: int|
        0 <= i < states.len() - 1 ==> #[trigger] step_at(
            short_circuit_on_exception,
            phase,
            actions,
            states,
            i,
        )
    &&& stop_on_short_circuit ==> forall|i: int|
        1 <= i < states.len() - 1 ==> !(#[trigger] states[i]).control@.short_circuited
    &&& states.len() < actions.len() + 1 ==> {
        &&& stop_on_short_circuit
        &&& states.len() >= 2
        &&& states.last().control@.short_circuited
    }
}

/// Whether a run of one phase may lead from the one state to the other.
pub open spec fn phase_relates<C: Clone, U: UnaryOperator<C>, K: StepAction<C, H>, H: OnErrorFn<C>>(
    short_circuit_on_exception: bool,
    phase: Seq<char>,
    actions: Seq<RegisteredActionView<U, K>>,
    stop_on_short_circuit: bool,
    start: RunState<C, H>,
    end: RunState<C, H>,
) -> bool {
    exists|states: Seq<RunState<C, H>>|
        {
            &&& phase_trace(
                short_circuit_on_exception,
                phase,
                actions,
                stop_on_short_circuit,
                states,
            )
            &&& states[0] == start
            &&& states.last() == end
        }
}

/// What a run hands back to the caller.
#[derive(Debug)]
pub struct PipelineResult<C> {
    pub context: C,
    pub short_circuited: bool,
    pub errors: Vec<PipelineError>,
    pub timings: Vec<ActionTiming>,
    pub total_nanos: u128,
}

/// A copy of a list of errors.
fn copy_errors(errors: &Vec<PipelineError>) -> (copy: Vec<PipelineError>)
    ensures
        copy@ == errors@,
{
    let mut copy: Vec<PipelineError> = Vec::new();
    let mut position: usize = 0;
    while position < errors.len()
        invariant
            position <= errors.len(),
            copy@ == errors@.subrange(0, position as int),
        decreases errors.len() - position,
    {
        copy.push(errors[position].clone());
        position += 1;
    }
    assert(errors@.subrange(0, errors.len() as int) =~= errors@);
    copy
}

/// A copy of a list of timings.
fn copy_timings(timings: &Vec<ActionTiming>) -> (copy: Vec<ActionTiming>)
    ensures
        copy@ == timings@,
{
    let mut copy: Vec<ActionTiming> = Vec::new();
    let mut position: usize = 0;
    while position < timings.len()
        invariant
            position <= timings.len(),
            copy@ == timings@.subrange(0, position as int),
        decreases timings.len() - position,
    {
        copy.push(timings[position].clone());
        position += 1;
    }
    assert(timings@.subrange(0, timings.len() as int) =~= timings@);
    copy
}

impl<C: Clone> Clone for PipelineResult<C> {
    /// A copy of the result: the value is cloned, the rest is the same.
    fn clone(&self) -> (copy: Self)
        ensures
            cloned(self.context, copy.context),
            copy.short_circuited == self.short_circuited,
            copy.errors@ == self.errors@,
            copy.timings@ == self.timings@,
            copy.total_nanos == self.total_nanos,
    {
        PipelineResult {
            context: self.context.clone(),
            short_circuited: self.short_circuited,
            errors: copy_errors(&self.errors),
            timings: copy_timings(&self.timings),
            total_nanos: self.total_nanos,
        }
    }
}

impl<C> PipelineResult<C> {
    pub fn has_errors(&self) -> (some: bool)
        ensures
            some == (self.errors@.len() > 0),
    {
        self.errors.len() > 0
    }
}

/// An ordered set of actions in three phases, with its failure policy.
pub struct Pipeline<U, K, H> {
    pub name: String,
    pub short_circuit_on_exception: bool,
    /// The failure handler; `None` stands for the default handler.
    pub on_error: Option<Arc<H>>,
    pub pre_actions: Vec<RegisteredAction<U, K>>,
    pub actions: Vec<RegisteredAction<U, K>>,
    pub post_actions: Vec<RegisteredAction<U, K>>,
}

/// The mathematical content of a [`Pipeline`].
pub struct PipelineView<U, K, H> {
    pub name: Seq<char>,
    pub short_circuit_on_exception: bool,
    pub on_error: Option<Arc<H>>,
    pub pre_actions: Seq<RegisteredActionView<U, K>>,
    pub actions: Seq<RegisteredActionView<U, K>>,
    pub post_actions: Seq<RegisteredActionView<U, K>>,
}

impl<U, K, H> View for Pipeline<U, K, H> {
    type V = PipelineView<U, K, H>;

    open spec fn view(&self) -> PipelineView<U, K, H> {
        PipelineView {
            name: self.name@,
            short_circuit_on_exception: self.short_circuit_on_exception,
            on_error: self.on_error,
            pre_actions: action_views(self.pre_actions@),
            actions: action_views(self.actions@),
            post_actions: action_views(self.post_actions@),
        }
    }
}

impl<U, K, H> PipelineView<U, K, H> {
    /// The pipeline with `action` appended to the phase that `section` names:
    /// `pre` and `post` name the phases of those names, every other name the
    /// main phase.
    pub open spec fn with_action(self, section: Seq<char>, action: RegisteredActionView<U, K>) -> Self {
        if section == "pre"@ {
            PipelineView { pre_actions: self.pre_actions.push(action), ..self }
        } else if section == "post"@ {
            PipelineView { post_actions: self.post_actions.push(action), ..self }
        } else {
            PipelineView { actions: self.actions.push(action), ..self }
        }
    }

    /// The pipeline with a unary action appended to a phase.
    pub open spec fn with_unary(self, section: Seq<char>, name: Seq<char>, action: U) -> Self {
        self.with_action(
            section,
            RegisteredActionView { name, kind: RegisteredActionKind::Unary(Arc::new(action)) },
        )
    }

    /// The pipeline with a controlled action appended to a phase.
    pub open spec fn with_controlled(self, section: Seq<char>, name: Seq<char>, action: K) -> Self {
        self.with_action(
            section,
            RegisteredActionView { name, kind: RegisteredActionKind::StepAction(Arc::new(action)) },
        )
    }
}

/// The states between the phases of one run.
pub struct RunTrace<C, H> {
    /// The control with which the run begins.
    pub fresh: StepControl<H>,
    pub after_pre: RunState<C, H>,
    pub after_main: RunState<C, H>,
    pub after_post: RunState<C, H>,
}

/// Whether a run of `pipeline` on `input` may pass through the states of
/// `run` and hand back `result`:
/// the run begins with a fresh control that holds the pipeline's name and
/// handler; the `pre` phase runs every action; the `main` phase is skipped if
/// the flag is set by then, and else runs until an action leaves the flag
/// set; the `post` phase runs every action; the result holds the last value,
/// the flag, and the errors and timings recorded.
pub open spec fn execute_follows<C: Clone, U: UnaryOperator<C>, K: StepAction<C, H>, H: OnErrorFn<C>>(
    pipeline: PipelineView<U, K, H>,
    input: C,
    run: RunTrace<C, H>,
    result: PipelineResult<C>,
) -> bool {
    &&& run.fresh@ == (StepControlView { started: true, ..idle_control(pipeline.name) })
    &&& run.fresh.on_error == pipeline.on_error
    &&& phase_relates(
        pipeline.short_circuit_on_exception,
        "pre"@,
        pipeline.pre_actions,
        false,
        RunState { ctx: input, control: run.fresh },
        run.after_pre,
    )
    &&& if run.after_pre.control@.short_circuited {
        run.after_main == run.after_pre
    } else {
        phase_relates(
            pipeline.short_circuit_on_exception,
            "main"@,
            pipeline.actions,
            true,
            run.after_pre,
            run.after_main,
        )
    }
    &&& phase_relates(
        pipeline.short_circuit_on_exception,
        "post"@,
        pipeline.post_actions,
        false,
        run.after_main,
        run.after_post,
    )
    &&& result.context == run.after_post.ctx
    &&& result.short_circuited == run.after_post.control@.short_circuited
    &&& error_views(result.errors@) == run.after_post.control@.errors
    &&& timing_views(result.timings@) == run.after_post.control@.timings
}

/// Whether a run of `pipeline` on `input` may hand back `result`.
pub open spec fn execute_relates<C: Clone, U: UnaryOperator<C>, K: StepAction<C, H>, H: OnErrorFn<C>>(
    pipeline: PipelineView<U, K, H>,
    input: C,
    result: PipelineResult<C>,
) -> bool {
    exists|run: RunTrace<C, H>| execute_follows(pipeline, input, run, result)
}

/// Runs the actions of one phase in order, from `start_ctx`.
pub fn run_phase<C, U, K, H>(
    short_circuit_on_exception: bool,
    phase: &str,
    start_ctx: C,
    actions: &Vec<RegisteredAction<U, K>>,
    control: &mut StepControl<H>,
    stop_on_short_circuit: bool,
) -> (end_ctx: C) where C: Clone, U: UnaryOperator<C>, K: StepAction<C, H>, H: OnErrorFn<C>
    ensures
        phase_relates(
            short_circuit_on_exception,
            phase@,
            action_views(actions@),
            stop_on_short_circuit,
            RunState { ctx: start_ctx, control: *old(control) },
            RunState { ctx: end_ctx, control: *final(control) },
        ),
{
    let mut ctx = start_ctx;
    let mut step_index: usize = 0;
    let ghost mut states: Seq<RunState<C, H>> = seq![RunState { ctx: start_ctx, control: *control }];
    while step_index < actions.len()
        invariant_except_break
            stop_on_short_circuit && step_index >= 1 ==> !control@.short_circuited,
        invariant
            step_index <= actions.len(),
            states.len() == step_index + 1,
            states[0] == (RunState { ctx: start_ctx, control: *old(control) }),
            states.last() == (RunState { ctx, control: *control }),
            forall|i: int|
                0 <= i < states.len() - 1 ==> #[trigger] step_at(
                    short_circuit_on_exception,
                    phase@,
                    action_views(actions@),
                    states,
                    i,
                ),
            stop_on_short_circuit ==> forall|i: int|
                1 <= i < states.len() - 1 ==> !(#[trigger] states[i]).control@.short_circuited,
        ensures
            step_index < actions.len() ==> {
                &&& stop_on_short_circuit
                &&& step_index >= 1
                &&& control@.short_circuited
            },
        decreases actions.len() - step_index,
    {
        let ghost before = states;
        ctx = run_step(
            short_circuit_on_exception,
            phase,
            step_index,
            &actions[step_index],
            ctx,
            control,
        );
        proof {
            states = states.push(RunState { ctx, control: *control });
            assert(action_views(actions@)[step_index as int] == actions@[step_index as int]@);
            assert(step_at(
                short_circuit_on_exception,
                phase@,
                action_views(actions@),
                states,
                step_index as int,
            ));
            assert forall|i: int| 0 <= i < states.len() - 1 implies #[trigger] step_at(
                short_circuit_on_exception,
                phase@,
                action_views(actions@),
                states,
                i,
            ) by {
                if i < step_index {
                    assert(step_at(
                        short_circuit_on_exception,
                        phase@,
                        action_views(actions@),
                        before,
                        i,
                    ));
                }
            }
        }
        step_index += 1;
        if stop_on_short_circuit && control.is_short_circuited() {
            break;
        }
    }
    proof {
        assert(phase_trace(
            short_circuit_on_exception,
            phase@,
            action_views(actions@),
            stop_on_short_circuit,
            states,
        ));
    }
    ctx
}

impl<U, K, H> Pipeline<U, K, H> {
    /// A pipeline without actions, with the default failure handler.
    pub fn new(name: &str, short_circuit_on_exception: bool) -> (pipeline: Self)
        ensures
            pipeline@ == (PipelineView::<U, K, H> {
                name: name@,
                short_circuit_on_exception,
                on_error: None,
                pre_actions: Seq::empty(),
                actions: Seq::empty(),
                post_actions: Seq::empty(),
            }),
    {
        let pipeline = Pipeline {
            name: String::from_str(name),
            short_circuit_on_exception,
            on_error: None,
            pre_actions: Vec::new(),
            actions: Vec::new(),
            post_actions: Vec::new(),
        };
        assert(pipeline@.pre_actions =~= Seq::empty());
        assert(pipeline@.actions =~= Seq::empty());
        assert(pipeline@.post_actions =~= Seq::empty());
        pipeline
    }

    /// Replaces the failure handler.
    pub fn on_error_handler(&mut self, handler: H) -> (this: &mut Self)
        ensures
            *this == (Pipeline { on_error: Some(Arc::new(handler)), ..*old(self) }),
            *final(this) == *final(self),
    {
        self.on_error = Some(Arc::new(handler));
        self
    }
    /// Appends an action to the phase that `section_name` names: `pre` and
    /// `post` name the phases of those names, every other name the main phase.
    pub fn add_registered(&mut self, section_name: &str, action: RegisteredAction<U, K>)
        ensures
            final(self)@ == old(self)@.with_action(section_name@, action@),
    {
        if str_eq(section_name, "pre") {
            let ghost before = self.pre_actions@;
            self.pre_actions.push(action);
            assert(action_views(self.pre_actions@) =~= action_views(before).push(action@));
        } else if str_eq(section_name, "post") {
            let ghost before = self.post_actions@;
            self.post_actions.push(action);
            assert(action_views(self.post_actions@) =~= action_views(before).push(action@));
        } else {
            let ghost before = self.actions@;
            self.actions.push(action);
            assert(action_views(self.actions@) =~= action_views(before).push(action@));
        }
    }

    /// Appends an unnamed unary action to the `pre` phase.
    pub fn add_pre_action(&mut self, action: U) -> (this: &mut Self)
        ensures
            this@ == old(self)@.with_unary("pre"@, Seq::empty(), action),
            *final(this) == *final(self),
    {
        proof {
            lemma_empty_literal();
        }
        self.add_pre_action_named("", action)
    }

    /// Appends a named unary action to the `pre` phase.
    pub fn add_pre_action_named(&mut self, name: &str, action: U) -> (this: &mut Self)
        ensures
            this@ == old(self)@.with_unary("pre"@, name@, action),
            *final(this) == *final(self),
    {
        self.add_registered(
            "pre",
            RegisteredAction {
                name: String::from_str(name),
                kind: RegisteredActionKind::Unary(Arc::new(action)),
            },
        );
        self
    }

    /// Appends an unnamed controlled action to the `pre` phase.
    pub fn add_pre_action_control(&mut self, action: K) -> (this: &mut Self)
        ensures
            this@ == old(self)@.with_controlled("pre"@, Seq::empty(), action),
            *final(this) == *final(self),
    {
        proof {
            lemma_empty_literal();
        }
        self.add_pre_action_control_named("", action)
    }

    /// Appends a named controlled action to the `pre` phase.
    pub fn add_pre_action_control_named(&mut self, name: &str, action: K) -> (this: &mut Self)
        ensures
            this@ == old(self)@.with_controlled("pre"@, name@, action),
            *final(this) == *final(self),
    {
        self.add_registered(
            "pre",
            RegisteredAction {
                name: String::from_str(name),
                kind: RegisteredActionKind::StepAction(Arc::new(action)),
            },
        );
        self
    }

    /// Appends an unnamed unary action to the `main` phase.
    pub fn add_action(&mut self, action: U) -> (this: &mut Self)
        ensures
            this@ == old(self)@.with_unary("main"@, Seq::empty(), action),
            *final(this) == *final(self),
    {
        proof {
            lemma_empty_literal();
        }
        self.add_action_named("", action)
    }

    /// Appends a named unary action to the `main` phase.
    pub fn add_action_named(&mut self, name: &str, action: U) -> (this: &mut Self)
        ensures
            this@ == old(self)@.with_unary("main"@, name@, action),
            *final(this) == *final(self),
    {
        self.add_registered(
            "main",
            RegisteredAction {
                name: String::from_str(name),
                kind: RegisteredActionKind::Unary(Arc::new(action)),
            },
        );
        self
    }

    /// Appends an unnamed controlled action to the `main` phase.
    pub fn add_action_control(&mut self, action: K) -> (this: &mut Self)
        ensures
            this@ == old(self)@.with_controlled("main"@, Seq::empty(), action),
            *final(this) == *final(self),
    {
        proof {
            lemma_empty_literal();
        }
        self.add_action_control_named("", action)
    }

    /// Appends a named controlled action to the `main` phase.
    pub fn add_action_control_named(&mut self, name: &str, action: K) -> (this: &mut Self)
        ensures
            this@ == old(self)@.with_controlled("main"@, name@, action),
            *final(this) == *final(self),
    {
        self.add_registered(
            "main",
            RegisteredAction {
                name: String::from_str(name),
                kind: RegisteredActionKind::StepAction(Arc::new(action)),
            },
        );
        self
    }

    /// Appends an unnamed unary action to the `post` phase.
    pub fn add_post_action(&mut self, action: U) -> (this: &mut Self)
        ensures
            this@ == old(self)@.with_unary("post"@, Seq::empty(), action),
            *final(this) == *final(self),
    {
        proof {
            lemma_empty_literal();
        }
        self.add_post_action_named("", action)
    }

    /// Appends a named unary action to the `post` phase.
    pub fn add_post_action_named(&mut self, name: &str, action: U) -> (this: &mut Self)
        ensures
            this@ == old(self)@.with_unary("post"@, name@, action),
            *final(this) == *final(self),
    {
        self.add_registered(
            "post",
            RegisteredAction {
                name: String::from_str(name),
                kind: RegisteredActionKind::Unary(Arc::new(action)),
            },
        );
        self
    }

    /// Appends an unnamed controlled action to the `post` phase.
    pub fn add_post_action_control(&mut self, action: K) -> (this: &mut Self)
        ensures
            this@ == old(self)@.with_controlled("post"@, Seq::empty(), action),
            *final(this) == *final(self),
    {
        proof {
            lemma_empty_literal();
        }
        self.add_post_action_control_named("", action)
    }

    /// Appends a named controlled action to the `post` phase.
    pub fn add_post_action_control_named(&mut self, name: &str, action: K) -> (this: &mut Self)
        ensures
            this@ == old(self)@.with_controlled("post"@, name@, action),
            *final(this) == *final(self),
    {
        self.add_registered(
            "post",
            RegisteredAction {
                name: String::from_str(name),
                kind: RegisteredActionKind::StepAction(Arc::new(action)),
            },
        );
        self
    }

    /// Runs the pipeline on `input_value` and returns the last value.
    pub fn run<C>(&self, input_value: C) -> (output: C) where
        C: Clone,
        U: UnaryOperator<C>,
        K: StepAction<C, H>,
        H: OnErrorFn<C>,

        ensures
            exists|result: PipelineResult<C>|
                execute_relates(self@, input_value, result) && output == result.context,
    {
        self.execute(input_value).context
    }

    /// Runs the pipeline on `input_value`: the `pre` phase, the `main` phase
    /// unless the flag is set by then, and the `post` phase.
    pub fn execute<C>(&self, input_value: C) -> (result: PipelineResult<C>) where
        C: Clone,
        U: UnaryOperator<C>,
        K: StepAction<C, H>,
        H: OnErrorFn<C>,

        ensures
            execute_relates(self@, input_value, result),
    {
        let on_error = match &self.on_error {
            Some(handler) => Some(share(handler)),
            None => None,
        };
        let mut control = StepControl::new(self.name.as_str(), on_error);
        control.begin_run();
        let ghost fresh = control;

        let mut ctx = run_phase(
            self.short_circuit_on_exception,
            "pre",
            input_value,
            &self.pre_actions,
            &mut control,
            false,
        );
        let ghost after_pre = RunState { ctx, control };
        if !control.is_short_circuited() {
            ctx = run_phase(
                self.short_circuit_on_exception,
                "main",
                ctx,
                &self.actions,
                &mut control,
                true,
            );
        }
        let ghost after_main = RunState { ctx, control };
        ctx = run_phase(
            self.short_circuit_on_exception,
            "post",
            ctx,
            &self.post_actions,
            &mut control,
            false,
        );
        let ghost after_post = RunState { ctx, control };

        let total_nanos = control.run_elapsed_nanos();
        let short_circuited = control.is_short_circuited();
        let result = PipelineResult {
            context: ctx,
            short_circuited,
            errors: control.errors,
            timings: control.timings,
            total_nanos,
        };
        proof {
            let run = RunTrace { fresh, after_pre, after_main, after_post };
            assert(execute_follows(self@, input_value, run, result));
        }
        result
    }
}

} // verus!
