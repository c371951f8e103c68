//! The incremental pipeline: every action that is added is applied at once to
//! the value that the pipeline holds.

use crate::engine::pipeline::action_views;
use crate::engine::pipeline::idle_control;
use crate::engine::pipeline::run_step;
use crate::engine::pipeline::share;
use crate::engine::pipeline::step_relates;
use crate::engine::pipeline::OnErrorFn;
use crate::engine::pipeline::Pipeline;
use crate::engine::pipeline::PipelineView;
use crate::engine::pipeline::RegisteredAction;
use crate::engine::pipeline::RegisteredActionKind;
use crate::engine::pipeline::RegisteredActionView;
use crate::engine::pipeline::StepAction;
use crate::engine::pipeline::StepControl;
use crate::engine::pipeline::UnaryOperator;
use crate::text::lemma_empty_literal;
use crate::text::str_eq;
use std::sync::Arc;
use vstd::prelude::*;
use vstd::string::*;

verus! {

/// A pipeline that applies each action as it is added. It is active until a
/// step leaves the short-circuit flag set; from then on it has ended, and
/// adding an action changes nothing.
pub struct RuntimePipeline<C, U, K, H> {
    pub name: String,
    pub short_circuit_on_exception: bool,
    /// The failure handler; `None` stands for the default handler.
    pub on_error: Option<Arc<H>>,
    ended: bool,
    current: Option<C>,
    pre_actions: Vec<RegisteredAction<U, K>>,
    actions: Vec<RegisteredAction<U, K>>,
    post_actions: Vec<RegisteredAction<U, K>>,
    control: StepControl<H>,
}

/// The mathematical content of a [`RuntimePipeline`].
pub struct RuntimePipelineView<C, U, K, H> {
    pub name: Seq<char>,
    pub short_circuit_on_exception: bool,
    pub on_error: Option<Arc<H>>,
    pub ended: bool,
    pub current: Option<C>,
    pub pre_actions: Seq<RegisteredActionView<U, K>>,
    pub actions: Seq<RegisteredActionView<U, K>>,
    pub post_actions: Seq<RegisteredActionView<U, K>>,
    pub control: StepControl<H>,
}

impl<C, U, K, H> View for RuntimePipeline<C, U, K, H> {
    type V = RuntimePipelineView<C, U, K, H>;

    closed spec fn view(&self) -> RuntimePipelineView<C, U, K, H> {
        RuntimePipelineView {
            name: self.name@,
            short_circuit_on_exception: self.short_circuit_on_exception,
            on_error: self.on_error,
            ended: self.ended,
            current: self.current,
            pre_actions: action_views(self.pre_actions@),
            actions: action_views(self.actions@),
            post_actions: action_views(self.post_actions@),
            control: self.control,
        }
    }
}

impl<C, U, K, H> RuntimePipelineView<C, U, K, H> {
    /// Whether the pipeline is in a state that its operations reach: one
    /// that is active has the short-circuit flag clear. A new pipeline is in
    /// such a state, and every operation keeps it there.
    pub open spec fn wf(self) -> bool {
        !self.ended ==> !self.control@.short_circuited
    }

    /// The actions of the phase that `phase` names: `pre` and `post` name the
    /// phases of those names, every other name the main phase.
    pub open spec fn phase_actions(self, phase: Seq<char>) -> Seq<RegisteredActionView<U, K>> {
        if phase == "pre"@ {
            self.pre_actions
        } else if phase == "post"@ {
            self.post_actions
        } else {
            self.actions
        }
    }

    /// The pipeline with `action` kept as the last one of `phase`.
    pub open spec fn with_action(self, phase: Seq<char>, action: RegisteredActionView<U, K>) -> Self {
        if phase == "pre"@ {
            RuntimePipelineView { pre_actions: self.pre_actions.push(action), ..self }
        } else if phase == "post"@ {
            RuntimePipelineView { post_actions: self.post_actions.push(action), ..self }
        } else {
            RuntimePipelineView { actions: self.actions.push(action), ..self }
        }
    }
}

/// Whether adding `action` to `phase` may lead from `before` to `after`:
/// a pipeline that has ended stays as it is; an active one keeps the action
/// as the last one of its phase, under the index that is the number of
/// actions the phase had, and, if it holds a value, runs the action as one
/// step on that value; it has ended afterwards if the flag is set.
pub open spec fn addition_relates<C: Clone, U: UnaryOperator<C>, K: StepAction<C, H>, H: OnErrorFn<C>>(
    before: RuntimePipelineView<C, U, K, H>,
    phase: Seq<char>,
    action: RegisteredActionView<U, K>,
    after: RuntimePipelineView<C, U, K, H>,
) -> bool {
    let kept = before.with_action(phase, action);
    if before.ended {
        after == before
    } else if before.current is None {
        after == kept
    } else {
        &&& after.current is Some
        &&& before.phase_actions(phase).len() <= usize::MAX
        &&& step_relates(
            before.short_circuit_on_exception,
            phase,
            before.phase_actions(phase).len() as usize,
            action,
            before.current->0,
            before.control,
            after.current->0,
            after.control,
        )
        &&& after == (RuntimePipelineView {
            current: after.current,
            control: after.control,
            ended: after.control@.short_circuited,
            ..kept
        })
    }
}

/// Adding an action keeps the pipeline in a state that its operations
/// reach: afterwards, as before, a pipeline that is active has the flag
/// clear.
pub proof fn lemma_addition_keeps_wf<
    C: Clone,
    U: UnaryOperator<C>,
    K: StepAction<C, H>,
    H: OnErrorFn<C>,
>(
    before: RuntimePipelineView<C, U, K, H>,
    phase: Seq<char>,
    action: RegisteredActionView<U, K>,
    after: RuntimePipelineView<C, U, K, H>,
)
    requires
        before.wf(),
        addition_relates(before, phase, action, after),
    ensures
        after.wf(),
{
}

/// Adding an action to a pipeline that has ended is a no-op: the action is
/// neither run nor kept, and the pipeline is afterwards what it was before.
pub proof fn lemma_ended_pipeline_is_frozen<
    C: Clone,
    U: UnaryOperator<C>,
    K: StepAction<C, H>,
    H: OnErrorFn<C>,
>(
    before: RuntimePipelineView<C, U, K, H>,
    phase: Seq<char>,
    action: RegisteredActionView<U, K>,
    after: RuntimePipelineView<C, U, K, H>,
)
    requires
        before.ended,
        addition_relates(before, phase, action, after),
    ensures
        after == before,
{
}

/// A pipeline is active after a step exactly if the step left the flag
/// clear: a step that requests a short-circuit, or fails under the
/// short-circuit policy, ends it.
pub proof fn lemma_active_pipeline_ends_on_flag<
    C: Clone,
    U: UnaryOperator<C>,
    K: StepAction<C, H>,
    H: OnErrorFn<C>,
>(
    before: RuntimePipelineView<C, U, K, H>,
    phase: Seq<char>,
    action: RegisteredActionView<U, K>,
    after: RuntimePipelineView<C, U, K, H>,
)
    requires
        !before.ended,
        before.current is Some,
        addition_relates(before, phase, action, after),
    ensures
        after.ended == after.control@.short_circuited,
        after.current is Some,
{
}

impl<C, U, K, H> RuntimePipeline<C, U, K, H> {
    /// An active pipeline that holds `initial`, with the default handler.
    pub fn new(name: &str, short_circuit_on_exception: bool, initial: C) -> (pipeline: Self)
        ensures
            pipeline@.name == name@,
            pipeline@.short_circuit_on_exception == short_circuit_on_exception,
            pipeline@.on_error == None::<Arc<H>>,
            !pipeline@.ended,
            pipeline@.current == Some(initial),
            pipeline@.pre_actions == Seq::<RegisteredActionView<U, K>>::empty(),
            pipeline@.actions == Seq::<RegisteredActionView<U, K>>::empty(),
            pipeline@.post_actions == Seq::<RegisteredActionView<U, K>>::empty(),
            pipeline@.control@ == idle_control(name@),
            pipeline@.control.on_error == None::<Arc<H>>,
            pipeline@.wf(),
    {
        let control = StepControl::new(name, None);
        let pipeline = RuntimePipeline {
            name: String::from_str(name),
            short_circuit_on_exception,
            on_error: None,
            ended: false,
            current: Some(initial),
            pre_actions: Vec::new(),
            actions: Vec::new(),
            post_actions: Vec::new(),
            control,
        };
        assert(pipeline@.pre_actions =~= Seq::empty());
        assert(pipeline@.actions =~= Seq::empty());
        assert(pipeline@.post_actions =~= Seq::empty());
        pipeline
    }

    /// The value that the pipeline holds.
    pub fn value(&self) -> (current: Option<&C>)
        ensures
            match current {
                Some(value) => self@.current == Some(*value),
                None => self@.current is None,
            },
    {
        self.current.as_ref()
    }

    /// Makes the pipeline active again, with a fresh value and a control as
    /// before any run; the actions that were added are kept.
    pub fn reset(&mut self, value: C)
        ensures
            final(self)@.current == Some(value),
            !final(self)@.ended,
            final(self)@.control@ == idle_control(old(self)@.control@.pipeline_name),
            final(self)@.control.on_error == old(self)@.control.on_error,
            final(self)@.wf(),
            final(self)@ == (RuntimePipelineView {
                current: final(self)@.current,
                ended: false,
                control: final(self)@.control,
                ..old(self)@
            }),
    {
        self.current = Some(value);
        self.ended = false;
        self.control.reset();
    }

    /// Replaces the failure handler, for the steps to come.
    pub fn on_error_handler(&mut self, handler: H)
        ensures
            final(self)@.on_error == Some(Arc::new(handler)),
            final(self)@.control.on_error == Some(Arc::new(handler)),
            final(self)@.control@ == old(self)@.control@,
            final(self)@.control.run_start_instant == old(self)@.control.run_start_instant,
            old(self)@.wf() ==> final(self)@.wf(),
            final(self)@ == (RuntimePipelineView {
                on_error: final(self)@.on_error,
                control: final(self)@.control,
                ..old(self)@
            }),
    {
        let shared = Arc::new(handler);
        self.control.on_error = Some(share(&shared));
        self.on_error = Some(shared);
    }

    /// An immutable pipeline with the name, the policy, the handler and the
    /// actions that this one has now; the same as [`Self::to_immutable`].
    pub fn freeze(&self) -> (pipeline: Pipeline<U, K, H>)
        ensures
            pipeline@ == (PipelineView {
                name: self@.name,
                short_circuit_on_exception: self@.short_circuit_on_exception,
                on_error: self@.on_error,
                pre_actions: self@.pre_actions,
                actions: self@.actions,
                post_actions: self@.post_actions,
            }),
    {
        self.to_immutable()
    }

    /// An immutable pipeline with the name, the policy, the handler and the
    /// actions that this one has now. It shares nothing that a later change
    /// of this pipeline could reach.
    pub fn to_immutable(&self) -> (pipeline: Pipeline<U, K, H>)
        ensures
            pipeline@ == (PipelineView {
                name: self@.name,
                short_circuit_on_exception: self@.short_circuit_on_exception,
                on_error: self@.on_error,
                pre_actions: self@.pre_actions,
                actions: self@.actions,
                post_actions: self@.post_actions,
            }),
    {
        let on_error = match &self.on_error {
            Some(handler) => Some(share(handler)),
            None => None,
        };
        Pipeline {
            name: self.name.clone(),
            short_circuit_on_exception: self.short_circuit_on_exception,
            on_error,
            pre_actions: copy_actions(&self.pre_actions),
            actions: copy_actions(&self.actions),
            post_actions: copy_actions(&self.post_actions),
        }
    }

    /// Adds an unnamed unary action to the `pre` phase and, if the pipeline
    /// is active, runs it on the value held; a pipeline that has ended stays
    /// as it is. Returns the value held afterwards.
    pub fn add_pre_action(&mut self, action: U) -> (current: Option<&C>) where
        C: Clone,
        U: UnaryOperator<C>,
        K: StepAction<C, H>,
        H: OnErrorFn<C>,

        ensures
            addition_relates(
                old(self)@,
                "pre"@,
                RegisteredActionView {
                    name: Seq::empty(),
                    kind: RegisteredActionKind::Unary(Arc::new(action)),
                },
                final(self)@,
            ),
            old(self)@.wf() ==> final(self)@.wf(),
            match current {
                Some(value) => final(self)@.current == Some(*value),
                None => final(self)@.current is None,
            },
    {
        proof {
            lemma_empty_literal();
        }
        let registered_action = RegisteredAction {
            name: String::from_str(""),
            kind: RegisteredActionKind::Unary(Arc::new(action)),
        };
        self.apply_action(registered_action, "pre");
        self.current.as_ref()
    }

    /// Adds an unnamed unary action to the `main` phase and, if the pipeline
    /// is active, runs it on the value held; a pipeline that has ended stays
    /// as it is. Returns the value held afterwards.
    pub fn add_action(&mut self, action: U) -> (current: Option<&C>) where
        C: Clone,
        U: UnaryOperator<C>,
        K: StepAction<C, H>,
        H: OnErrorFn<C>,

        ensures
            addition_relates(
                old(self)@,
                "main"@,
                RegisteredActionView {
                    name: Seq::empty(),
                    kind: RegisteredActionKind::Unary(Arc::new(action)),
                },
                final(self)@,
            ),
            old(self)@.wf() ==> final(self)@.wf(),
            match current {
                Some(value) => final(self)@.current == Some(*value),
                None => final(self)@.current is None,
            },
    {
        proof {
            lemma_empty_literal();
        }
        let registered_action = RegisteredAction {
            name: String::from_str(""),
            kind: RegisteredActionKind::Unary(Arc::new(action)),
        };
        self.apply_action(registered_action, "main");
        self.current.as_ref()
    }

    /// Adds an unnamed controlled action to the `main` phase and, if the pipeline
    /// is active, runs it on the value held; a pipeline that has ended stays
    /// as it is. Returns the value held afterwards.
    pub fn add_action_control(&mut self, action: K) -> (current: Option<&C>) where
        C: Clone,
        U: UnaryOperator<C>,
        K: StepAction<C, H>,
        H: OnErrorFn<C>,

        ensures
            addition_relates(
                old(self)@,
                "main"@,
                RegisteredActionView {
                    name: Seq::empty(),
                    kind: RegisteredActionKind::StepAction(Arc::new(action)),
                },
                final(self)@,
            ),
            old(self)@.wf() ==> final(self)@.wf(),
            match current {
                Some(value) => final(self)@.current == Some(*value),
                None => final(self)@.current is None,
            },
    {
        proof {
            lemma_empty_literal();
        }
        let registered_action = RegisteredAction {
            name: String::from_str(""),
            kind: RegisteredActionKind::StepAction(Arc::new(action)),
        };
        self.apply_action(registered_action, "main");
        self.current.as_ref()
    }

    /// Adds an unnamed unary action to the `post` phase and, if the pipeline
    /// is active, runs it on the value held; a pipeline that has ended stays
    /// as it is. Returns the value held afterwards.
    pub fn add_post_action(&mut self, action: U) -> (current: Option<&C>) where
        C: Clone,
        U: UnaryOperator<C>,
        K: StepAction<C, H>,
        H: OnErrorFn<C>,

        ensures
            addition_relates(
                old(self)@,
                "post"@,
                RegisteredActionView {
                    name: Seq::empty(),
                    kind: RegisteredActionKind::Unary(Arc::new(action)),
                },
                final(self)@,
            ),
            old(self)@.wf() ==> final(self)@.wf(),
            match current {
                Some(value) => final(self)@.current == Some(*value),
                None => final(self)@.current is None,
            },
    {
        proof {
            lemma_empty_literal();
        }
        let registered_action = RegisteredAction {
            name: String::from_str(""),
            kind: RegisteredActionKind::Unary(Arc::new(action)),
        };
        self.apply_action(registered_action, "post");
        self.current.as_ref()
    }

    /// Adds an unnamed controlled action to the `post` phase and, if the pipeline
    /// is active, runs it on the value held; a pipeline that has ended stays
    /// as it is. Returns the value held afterwards.
    pub fn add_post_action_control(&mut self, action: K) -> (current: Option<&C>) where
        C: Clone,
        U: UnaryOperator<C>,
        K: StepAction<C, H>,
        H: OnErrorFn<C>,

        ensures
            addition_relates(
                old(self)@,
                "post"@,
                RegisteredActionView {
                    name: Seq::empty(),
                    kind: RegisteredActionKind::StepAction(Arc::new(action)),
                },
                final(self)@,
            ),
            old(self)@.wf() ==> final(self)@.wf(),
            match current {
                Some(value) => final(self)@.current == Some(*value),
                None => final(self)@.current is None,
            },
    {
        proof {
            lemma_empty_literal();
        }
        let registered_action = RegisteredAction {
            name: String::from_str(""),
            kind: RegisteredActionKind::StepAction(Arc::new(action)),
        };
        self.apply_action(registered_action, "post");
        self.current.as_ref()
    }

    /// Does nothing to a pipeline that has ended. Keeps `registered_action`
    /// as the last action of `phase` of an active one and, if the pipeline
    /// holds a value, runs it as one step.
    fn apply_action(&mut self, registered_action: RegisteredAction<U, K>, phase: &str) where
        C: Clone,
        U: UnaryOperator<C>,
        K: StepAction<C, H>,
        H: OnErrorFn<C>,

        ensures
            addition_relates(old(self)@, phase@, registered_action@, final(self)@),
            old(self)@.wf() ==> final(self)@.wf(),
    {
        if self.ended {
            return;
        }
        let to_pre = str_eq(phase, "pre");
        let to_post = str_eq(phase, "post");
        let index = if to_pre {
            self.pre_actions.len()
        } else if to_post {
            self.post_actions.len()
        } else {
            self.actions.len()
        };
        match self.current.take() {
            Some(value) => {
                let next = run_step(
                    self.short_circuit_on_exception,
                    phase,
                    index,
                    &registered_action,
                    value,
                    &mut self.control,
                );
                self.current = Some(next);
                self.ended = self.control.is_short_circuited();
            },
            None => {},
        }
        if to_pre {
            let ghost before = self.pre_actions@;
            self.pre_actions.push(registered_action);
            assert(action_views(self.pre_actions@) =~= action_views(before).push(
                registered_action@,
            ));
        } else if to_post {
            let ghost before = self.post_actions@;
            self.post_actions.push(registered_action);
            assert(action_views(self.post_actions@) =~= action_views(before).push(
                registered_action@,
            ));
        } else {
            let ghost before = self.actions@;
            self.actions.push(registered_action);
            assert(action_views(self.actions@) =~= action_views(before).push(registered_action@));
        }
    }
}

/// A copy of a list of actions: the names are copied, the actions shared.
fn copy_actions<U, K>(actions: &Vec<RegisteredAction<U, K>>) -> (copy: Vec<RegisteredAction<U, K>>)
    ensures
        copy@ == actions@,
{
    let mut copy: Vec<RegisteredAction<U, K>> = Vec::new();
    let mut position: usize = 0;
    while position < actions.len()
        invariant
            position <= actions.len(),
            copy@ == actions@.subrange(0, position as int),
        decreases actions.len() - position,
    {
        copy.push(actions[position].clone());
        position += 1;
    }
    assert(actions@.subrange(0, actions.len() as int) =~= actions@);
    copy
}

} // verus!
