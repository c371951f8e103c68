//! The observability hook: a controlled action that reports the figures of
//! the run it is part of.

use crate::assoc::as_map;
use crate::assoc::distinct_keys;
use crate::assoc::put;
use crate::engine::laws::keeps_short_circuit;
use crate::engine::laws::keeps_step_records;
use crate::engine::pipeline::ActionTimingView;
use crate::engine::pipeline::RegisteredActionKind;
use crate::engine::pipeline::RegisteredActionView;
use crate::engine::pipeline::StepAction;
use crate::engine::pipeline::StepControl;
use std::sync::Arc;
use vstd::prelude::*;

verus! {

/// The figures of a run at one moment.
#[derive(Debug)]
pub struct Metrics {
    pub pipeline: String,
    pub short_circuited: bool,
    pub error_count: usize,
    /// The time since the run began, in nanoseconds.
    pub pipeline_latency_nanos: u128,
    /// The time of each step, in nanoseconds, under the step's display name;
    /// no name twice.
    pub action_latency_nanos: Vec<(String, u128)>,
}

/// The time of each of the first `count` steps under the step's display
/// name; of two steps of one name the later one counts.
pub open spec fn latency_by_name(timings: Seq<ActionTimingView>, count: int) -> Map<Seq<char>, u128>
    decreases count,
{
    if count <= 0 {
        Map::empty()
    } else {
        latency_by_name(timings, count - 1).insert(
            timings[count - 1].action_name,
            timings[count - 1].elapsed_nanos,
        )
    }
}

/// Whether `metrics` are figures of the run that `control` belongs to: the
/// name of the pipeline, the short-circuit flag and the number of errors as
/// the control holds them; a latency of the run, which is 0 for a run that
/// has not begun; and the time of each step under the step's name, no name
/// twice.
pub open spec fn figures_of<H>(control: StepControl<H>, metrics: Metrics) -> bool {
    &&& metrics.pipeline@ == control@.pipeline_name
    &&& metrics.short_circuited == control@.short_circuited
    &&& metrics.error_count == control@.errors.len()
    &&& !control@.started ==> metrics.pipeline_latency_nanos == 0
    &&& distinct_keys(metrics.action_latency_nanos@)
    &&& as_map(metrics.action_latency_nanos@) == latency_by_name(
        control@.timings,
        control@.timings.len() as int,
    )
}

/// Collects the figures of the run that `control` belongs to.
pub fn collect_metrics<H>(control: &StepControl<H>) -> (metrics: Metrics)
    ensures
        figures_of(*control, metrics),
{
    let mut action_latency_nanos: Vec<(String, u128)> = Vec::new();
    assert(as_map(action_latency_nanos@) =~= Map::<Seq<char>, u128>::empty());
    let mut position: usize = 0;
    while position < control.timings.len()
        invariant
            position <= control.timings.len(),
            distinct_keys(action_latency_nanos@),
            as_map(action_latency_nanos@) == latency_by_name(control@.timings, position as int),
        decreases control.timings.len() - position,
    {
        let timing = &control.timings[position];
        put(&mut action_latency_nanos, timing.action_name.clone(), timing.elapsed_nanos);
        position += 1;
    }
    Metrics {
        pipeline: control.pipeline_name.clone(),
        short_circuited: control.is_short_circuited(),
        error_count: control.errors.len(),
        pipeline_latency_nanos: control.run_elapsed_nanos(),
        action_latency_nanos,
    }
}

/// Where the figures of a run are reported to.
pub trait MetricsSink {
    /// Whether `metrics` were handed to the sink. A sink that does not say
    /// admits every report; nothing is promised of what becomes of one.
    open spec fn reported(&self, metrics: Metrics) -> bool {
        true
    }

    /// Takes one report.
    fn emit(&self, metrics: Metrics)
        ensures
            self.reported(metrics),
    ;
}

/// The sink of a hook that reports to nobody: every report is dropped.
pub struct NoSink;

impl MetricsSink for NoSink {
    fn emit(&self, metrics: Metrics) {
    }
}

/// Whether the figures of the run that `control` belongs to were reported
/// to `sink`.
pub open spec fn figures_reported<H, S: MetricsSink>(control: StepControl<H>, sink: S) -> bool {
    exists|metrics: Metrics| figures_of(control, metrics) && #[trigger] sink.reported(metrics)
}

/// Reports the figures of the run to `sink` and hands the value back. The
/// control is read, never changed.
pub fn print_metrics<C, H, S: MetricsSink>(ctx: C, control: &mut StepControl<H>, sink: &S) -> (same:
    C)
    ensures
        same == ctx,
        *final(control) == *old(control),
        figures_reported(*old(control), *sink),
{
    let metrics = collect_metrics(control);
    sink.emit(metrics);
    ctx
}

/// The hook as an action of a pipeline; it is meant for the `post` phase.
pub struct MetricsAction<S> {
    pub sink: S,
}

impl<C, H, S: MetricsSink> StepAction<C, H> for MetricsAction<S> {
    /// The action reports the figures of the run to its sink; it never
    /// fails, passes the value on and leaves the control as it was.
    open spec fn produces(
        &self,
        input: C,
        before: StepControl<H>,
        outcome: Result<C, String>,
        after: StepControl<H>,
    ) -> bool {
        &&& outcome == Ok::<C, String>(input)
        &&& after == before
        &&& figures_reported(before, self.sink)
    }

    fn apply(&self, input: C, control: &mut StepControl<H>) -> (outcome: Result<C, String>) {
        Ok(print_metrics(input, control, &self.sink))
    }
}

/// The hook leaves the records of the run alone, and a short-circuit in
/// force, under whatever name it is registered.
pub proof fn lemma_metrics_action_keeps_step_records<C, U, H, S: MetricsSink>(
    name: Seq<char>,
    action: MetricsAction<S>,
)
    ensures
        keeps_step_records::<C, U, MetricsAction<S>, H>(
            RegisteredActionView { name, kind: RegisteredActionKind::StepAction(Arc::new(action)) },
        ),
        keeps_short_circuit::<C, U, MetricsAction<S>, H>(
            RegisteredActionView { name, kind: RegisteredActionKind::StepAction(Arc::new(action)) },
        ),
{
}

} // verus!
