//! How a pipeline is obtained for one call: one shared instance, an instance
//! from a bounded pool, or a new instance for every call.

use crate::engine::pipeline::execute_relates;
use crate::engine::pipeline::OnErrorFn;
use crate::engine::pipeline::Pipeline;
use crate::engine::pipeline::PipelineResult;
use crate::engine::pipeline::StepAction;
use crate::engine::pipeline::UnaryOperator;
use vstd::prelude::*;

verus! {

/// The three ways of obtaining a pipeline.
#[derive(Clone, Copy, Debug, PartialEq, Eq)]
pub enum PipelineProviderMode {
    Shared,
    Pooled,
    PerRun,
}

/// The capacity of a pool on a machine with `processor_count` processors:
/// eight instances for each processor, at least 1 and at most 256.
pub open spec fn default_pool_max_spec(processor_count: usize) -> usize {
    if processor_count == 0 {
        1
    } else if processor_count >= 32 {
        256
    } else {
        (processor_count * 8) as usize
    }
}

/// The capacity that a pool has when none is given, from the number of
/// processors of the machine.
pub fn default_pool_max(processor_count: usize) -> (pool_max: usize)
    ensures
        pool_max == default_pool_max_spec(processor_count),
        1 <= pool_max <= 256,
{
    if processor_count == 0 {
        1
    } else if processor_count >= 32 {
        256
    } else {
        processor_count * 8
    }
}

/// The books of a bounded pool: how many instances there may be, how many
/// were created, and the instances that are idle. The instances that are out
/// are those that were created and are not idle.
pub struct ActionPool<ItemType> {
    max_size: usize,
    created_count: usize,
    available: Vec<ItemType>,
}

/// The mathematical content of an [`ActionPool`].
pub struct ActionPoolView<ItemType> {
    pub max_size: nat,
    pub created_count: nat,
    pub available: Seq<ItemType>,
}

/// What a caller that asks for an instance is to do.
pub enum BorrowedItem<ItemType> {
    /// Use this instance, which was idle.
    Idle(ItemType),
    /// Create an instance and use it; it is counted already.
    Create,
    /// Wait until an instance is released, then ask again.
    Wait,
}

impl<ItemType> ActionPoolView<ItemType> {
    /// Whether the books are in order: the capacity is at least 1, no more
    /// instances were created than the capacity allows, and the idle ones
    /// are among those created.
    pub open spec fn wf(self) -> bool {
        &&& 1 <= self.max_size
        &&& self.created_count <= self.max_size
        &&& self.available.len() <= self.created_count
    }

    /// The number of instances that are out.
    pub open spec fn outstanding(self) -> int {
        self.created_count - self.available.len()
    }

    /// What a caller that asks for an instance is told: to use the instance
    /// that was released last, if one is idle; else to create one, if the
    /// capacity allows; else to wait.
    pub open spec fn answer(self) -> BorrowedItem<ItemType> {
        if self.available.len() > 0 {
            BorrowedItem::Idle(self.available.last())
        } else if self.created_count < self.max_size {
            BorrowedItem::Create
        } else {
            BorrowedItem::Wait
        }
    }

    /// The books after a caller has asked for an instance.
    pub open spec fn after_borrow(self) -> Self {
        if self.available.len() > 0 {
            ActionPoolView { available: self.available.drop_last(), ..self }
        } else if self.created_count < self.max_size {
            ActionPoolView { created_count: self.created_count + 1, ..self }
        } else {
            self
        }
    }

    /// The books after `item` has been released.
    pub open spec fn after_release(self, item: ItemType) -> Self {
        ActionPoolView { available: self.available.push(item), ..self }
    }

    /// The books after the creation of an instance has failed.
    pub open spec fn after_failed_creation(self) -> Self {
        ActionPoolView {
            created_count: if self.created_count > 0 {
                (self.created_count - 1) as nat
            } else {
                0
            },
            ..self
        }
    }
}

/// No operation takes a pool over its capacity: books that are in order stay
/// in order when an instance is asked for, when one that is out is released,
/// and when the creation of one that is out fails. So there are never more
/// instances than the capacity allows.
pub proof fn lemma_pool_never_exceeds_capacity<ItemType>(pool: ActionPoolView<ItemType>, item: ItemType)
    requires
        pool.wf(),
    ensures
        pool.created_count <= pool.max_size,
        pool.after_borrow().wf(),
        pool.outstanding() > 0 ==> pool.after_release(item).wf(),
        pool.outstanding() > 0 ==> pool.after_failed_creation().wf(),
{
}

/// A caller that asks a pool at its capacity, with every instance out, is
/// told to wait, and the books stay as they are; once an instance is
/// released, the next caller is given that instance.
pub proof fn lemma_exhausted_pool_waits_for_release<ItemType>(
    pool: ActionPoolView<ItemType>,
    item: ItemType,
)
    requires
        pool.wf(),
        pool.created_count == pool.max_size,
        pool.available.len() == 0,
    ensures
        pool.answer() is Wait,
        pool.after_borrow() == pool,
        pool.after_release(item).answer() == BorrowedItem::Idle(item),
        pool.after_release(item).after_borrow() == pool,
{
    assert(pool.after_release(item).available.drop_last() =~= pool.available);
}

impl<ItemType> View for ActionPool<ItemType> {
    type V = ActionPoolView<ItemType>;

    closed spec fn view(&self) -> ActionPoolView<ItemType> {
        ActionPoolView {
            max_size: self.max_size as nat,
            created_count: self.created_count as nat,
            available: self.available@,
        }
    }
}

impl<ItemType> ActionPool<ItemType> {
    /// An empty pool of capacity `max_size`.
    pub fn new(max_size: usize) -> (pool: Self)
        requires
            max_size >= 1,
        ensures
            pool@.wf(),
            pool@ == (ActionPoolView::<ItemType> {
                max_size: max_size as nat,
                created_count: 0,
                available: Seq::empty(),
            }),
    {
        ActionPool { max_size, created_count: 0, available: Vec::new() }
    }

    /// The number of instances that are out.
    pub fn outstanding(&self) -> (count: usize)
        requires
            self@.wf(),
        ensures
            count == self@.outstanding(),
    {
        self.created_count - self.available.len()
    }

    /// The number of instances that there may be.
    pub fn capacity(&self) -> (max_size: usize)
        ensures
            max_size == self@.max_size,
    {
        self.max_size
    }

    /// Asks for an instance.
    pub fn borrow(&mut self) -> (answer: BorrowedItem<ItemType>)
        requires
            old(self)@.wf(),
        ensures
            final(self)@.wf(),
            answer == old(self)@.answer(),
            final(self)@ == old(self)@.after_borrow(),
    {
        match self.available.pop() {
            Some(item) => {
                assert(self.available@ =~= old(self).available@.drop_last());
                return BorrowedItem::Idle(item);
            },
            None => {},
        }
        if self.created_count < self.max_size {
            self.created_count += 1;
            BorrowedItem::Create
        } else {
            BorrowedItem::Wait
        }
    }

    /// Takes back an instance that was out.
    pub fn release(&mut self, item: ItemType)
        requires
            old(self)@.wf(),
            old(self)@.outstanding() > 0,
        ensures
            final(self)@.wf(),
            final(self)@ == old(self)@.after_release(item),
    {
        self.available.push(item);
    }

    /// Takes an instance whose creation failed off the count, so that a
    /// later caller may try again.
    pub fn creation_failed(&mut self)
        requires
            old(self)@.wf(),
            old(self)@.outstanding() > 0,
        ensures
            final(self)@.wf(),
            final(self)@ == old(self)@.after_failed_creation(),
    {
        if self.created_count > 0 {
            self.created_count -= 1;
        }
    }
}

/// What a provider holds, by its mode.
enum ProviderSource<U, K, H, FactoryFn> {
    Shared(Pipeline<U, K, H>),
    Pooled { factory: FactoryFn, pool: ActionPool<Pipeline<U, K, H>> },
    PerRun(FactoryFn),
}

/// Hands out a pipeline for each call, in one of three ways.
pub struct PipelineProvider<U, K, H, FactoryFn> {
    source: ProviderSource<U, K, H, FactoryFn>,
}

impl<U, K, H, FactoryFn: Fn() -> Pipeline<U, K, H>> PipelineProvider<U, K, H, FactoryFn> {
    /// The mode of the provider.
    pub closed spec fn spec_mode(&self) -> PipelineProviderMode {
        match self.source {
            ProviderSource::Shared(_) => PipelineProviderMode::Shared,
            ProviderSource::Pooled { .. } => PipelineProviderMode::Pooled,
            ProviderSource::PerRun(_) => PipelineProviderMode::PerRun,
        }
    }

    /// The pipeline of a shared provider.
    pub closed spec fn shared_pipeline(&self) -> Pipeline<U, K, H> {
        match self.source {
            ProviderSource::Shared(pipeline) => pipeline,
            _ => arbitrary(),
        }
    }

    /// The factory of a pooled provider and of one that creates a pipeline
    /// for every call.
    pub closed spec fn factory(&self) -> FactoryFn {
        match self.source {
            ProviderSource::Pooled { factory, .. } => factory,
            ProviderSource::PerRun(factory) => factory,
            _ => arbitrary(),
        }
    }

    /// The books of the pool of a pooled provider.
    pub closed spec fn pool(&self) -> ActionPoolView<Pipeline<U, K, H>> {
        match self.source {
            ProviderSource::Pooled { pool, .. } => pool@,
            _ => arbitrary(),
        }
    }

    /// Whether the provider is as every operation leaves it: its factory may
    /// be called, and between two calls every instance of its pool is idle.
    pub closed spec fn wf(&self) -> bool {
        match self.source {
            ProviderSource::Shared(_) => true,
            ProviderSource::Pooled { factory, pool } => {
                &&& call_requires(factory, ())
                &&& pool@.wf()
                &&& pool@.outstanding() == 0
            },
            ProviderSource::PerRun(factory) => call_requires(factory, ()),
        }
    }

    /// A provider that serves every call with `pipeline`.
    pub fn shared(pipeline: Pipeline<U, K, H>) -> (provider: Self)
        ensures
            provider.wf(),
            provider.spec_mode() == PipelineProviderMode::Shared,
            provider.shared_pipeline() == pipeline,
    {
        PipelineProvider { source: ProviderSource::Shared(pipeline) }
    }

    /// A provider that serves each call with an instance of a pool of at
    /// most `pool_max` instances, which it creates with `factory` as they
    /// are needed.
    pub fn pooled(factory: FactoryFn, pool_max: usize) -> (provider: Self)
        requires
            pool_max >= 1,
            call_requires(factory, ()),
        ensures
            provider.wf(),
            provider.spec_mode() == PipelineProviderMode::Pooled,
            provider.factory() == factory,
            provider.pool() == (ActionPoolView::<Pipeline<U, K, H>> {
                max_size: pool_max as nat,
                created_count: 0,
                available: Seq::empty(),
            }),
    {
        let pool = ActionPool::new(pool_max);
        PipelineProvider { source: ProviderSource::Pooled { factory, pool } }
    }

    /// A provider that serves each call with a new instance, which it
    /// creates with `factory`.
    pub fn per_run(factory: FactoryFn) -> (provider: Self)
        requires
            call_requires(factory, ()),
        ensures
            provider.wf(),
            provider.spec_mode() == PipelineProviderMode::PerRun,
            provider.factory() == factory,
    {
        PipelineProvider { source: ProviderSource::PerRun(factory) }
    }

    pub fn mode(&self) -> (mode: PipelineProviderMode)
        ensures
            mode == self.spec_mode(),
    {
        match &self.source {
            ProviderSource::Shared(_) => PipelineProviderMode::Shared,
            ProviderSource::Pooled { .. } => PipelineProviderMode::Pooled,
            ProviderSource::PerRun(_) => PipelineProviderMode::PerRun,
        }
    }

    /// Whether a call on `input_value` may lead from the provider `before`
    /// to the provider `after` and give `result`: the result is that of a run
    /// of the pipeline that serves the call. A shared provider serves with
    /// its pipeline. A provider that creates a pipeline for every call serves
    /// with one that its factory gave. A pooled provider serves with the
    /// instance that was released last and, with no instance left, with one
    /// that its factory gave; the instance is idle again afterwards.
    pub open spec fn run_relates<C: Clone>(
        before: &Self,
        input_value: C,
        result: PipelineResult<C>,
        after: &Self,
    ) -> bool where U: UnaryOperator<C>, K: StepAction<C, H>, H: OnErrorFn<C> {
        &&& after.spec_mode() == before.spec_mode()
        &&& match before.spec_mode() {
            PipelineProviderMode::Shared => {
                &&& after.shared_pipeline() == before.shared_pipeline()
                &&& execute_relates(before.shared_pipeline()@, input_value, result)
            },
            PipelineProviderMode::PerRun => {
                &&& after.factory() == before.factory()
                &&& exists|pipeline: Pipeline<U, K, H>|
                    call_ensures(before.factory(), (), pipeline) && #[trigger] execute_relates(
                        pipeline@,
                        input_value,
                        result,
                    )
            },
            PipelineProviderMode::Pooled => {
                &&& after.factory() == before.factory()
                &&& if before.pool().available.len() > 0 {
                    &&& after.pool() == before.pool()
                    &&& execute_relates(before.pool().available.last()@, input_value, result)
                } else {
                    &&& after.pool().available.len() == 1
                    &&& after.pool() == before.pool().after_borrow().after_release(
                        after.pool().available[0],
                    )
                    &&& call_ensures(before.factory(), (), after.pool().available[0])
                    &&& execute_relates(after.pool().available[0]@, input_value, result)
                }
            },
        }
    }

    /// Serves one call: obtains a pipeline in the provider's way and runs it
    /// on `input_value`.
    pub fn run<C>(&mut self, input_value: C) -> (result: PipelineResult<C>) where
        C: Clone,
        U: UnaryOperator<C>,
        K: StepAction<C, H>,
        H: OnErrorFn<C>,

        requires
            old(self).wf(),
        ensures
            final(self).wf(),
            Self::run_relates(old(self), input_value, result, final(self)),
    {
        match &mut self.source {
            ProviderSource::Shared(pipeline) => pipeline.execute(input_value),
            ProviderSource::Pooled { factory, pool } => {
                let borrowed_pipeline = match pool.borrow() {
                    BorrowedItem::Idle(pipeline) => pipeline,
                    BorrowedItem::Create => factory(),
                    BorrowedItem::Wait => {
                        proof {
                            assert(false);
                        }
                        factory()
                    },
                };
                let result = borrowed_pipeline.execute(input_value);
                pool.release(borrowed_pipeline);
                proof {
                    let before = old(self).pool();
                    if before.available.len() > 0 {
                        assert(before.available.drop_last().push(before.available.last())
                            =~= before.available);
                    }
                }
                result
            },
            ProviderSource::PerRun(factory) => {
                let pipeline = factory();
                pipeline.execute(input_value)
            },
        }
    }
}

} // verus!
