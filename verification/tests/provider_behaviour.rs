use pipeline_services::disruptor::engine::DisruptorEngine;
use pipeline_services::engine::pipeline_provider::{
  default_pool_max, ActionPool, BorrowedItem, PipelineProvider, PipelineProviderMode,
};
use pipeline_services::prompt::prompt::PromptStep;
use pipeline_services::{DefaultOnError, Pipeline, PipelineRegistry, StepAction, StepControl, UnaryOperator};

struct Append(&'static str);

impl UnaryOperator<String> for Append {
  fn apply(&self, input: String) -> Result<String, String> {
    Ok(format!("{input}{}", self.0))
  }
}

struct Idle;

impl StepAction<String, DefaultOnError> for Idle {
  fn apply(&self, input: String, control: &mut StepControl<DefaultOnError>) -> Result<String, String> {
    drop(control);
    Ok(input)
  }
}

type Plain = Pipeline<Append, Idle, DefaultOnError>;

fn make_pipeline() -> Plain {
  let mut pipeline: Plain = Pipeline::new("made", true);
  pipeline.add_action(Append("!"));
  pipeline
}

#[test]
fn default_pool_max_is_eight_per_processor_within_bounds() {
  assert_eq!(default_pool_max(0), 1);
  assert_eq!(default_pool_max(1), 8);
  assert_eq!(default_pool_max(4), 32);
  assert_eq!(default_pool_max(31), 248);
  assert_eq!(default_pool_max(32), 256);
  assert_eq!(default_pool_max(1000), 256);
  assert_eq!(default_pool_max(usize::MAX), 256);
}

#[test]
fn pool_creates_up_to_capacity_then_waits() {
  let mut pool: ActionPool<u32> = ActionPool::new(2);
  assert!(matches!(pool.borrow(), BorrowedItem::Create));
  assert!(matches!(pool.borrow(), BorrowedItem::Create));
  assert!(matches!(pool.borrow(), BorrowedItem::Wait));
  assert!(matches!(pool.borrow(), BorrowedItem::Wait));
  pool.release(7);
  assert!(matches!(pool.borrow(), BorrowedItem::Idle(7)));
  assert!(matches!(pool.borrow(), BorrowedItem::Wait));
}

#[test]
fn pool_hands_out_the_instance_released_last() {
  let mut pool: ActionPool<u32> = ActionPool::new(3);
  assert!(matches!(pool.borrow(), BorrowedItem::Create));
  assert!(matches!(pool.borrow(), BorrowedItem::Create));
  pool.release(1);
  pool.release(2);
  assert!(matches!(pool.borrow(), BorrowedItem::Idle(2)));
  assert!(matches!(pool.borrow(), BorrowedItem::Idle(1)));
  assert!(matches!(pool.borrow(), BorrowedItem::Create));
  assert!(matches!(pool.borrow(), BorrowedItem::Wait));
}

#[test]
fn failed_creation_frees_its_place() {
  let mut pool: ActionPool<u32> = ActionPool::new(1);
  assert!(matches!(pool.borrow(), BorrowedItem::Create));
  assert!(matches!(pool.borrow(), BorrowedItem::Wait));
  pool.creation_failed();
  assert!(matches!(pool.borrow(), BorrowedItem::Create));
}

#[test]
fn shared_provider_runs_its_pipeline() {
  let mut provider: PipelineProvider<Append, Idle, DefaultOnError, fn() -> Plain> =
    PipelineProvider::shared(make_pipeline());
  assert_eq!(provider.mode(), PipelineProviderMode::Shared);
  assert_eq!(provider.run("a".to_string()).context, "a!");
  assert_eq!(provider.run("b".to_string()).context, "b!");
}

#[test]
fn pooled_provider_reuses_its_instance() {
  let mut provider = PipelineProvider::pooled(make_pipeline, 2);
  assert_eq!(provider.mode(), PipelineProviderMode::Pooled);
  assert_eq!(provider.run("a".to_string()).context, "a!");
  assert_eq!(provider.run("b".to_string()).context, "b!");
  assert_eq!(provider.run("c".to_string()).context, "c!");
}

#[test]
fn per_run_provider_creates_a_pipeline_for_each_call() {
  let mut provider = PipelineProvider::per_run(make_pipeline);
  assert_eq!(provider.mode(), PipelineProviderMode::PerRun);
  let result = provider.run("a".to_string());
  assert_eq!(result.context, "a!");
  assert!(!result.has_errors());
}

#[test]
fn registry_keeps_the_last_registration() {
  let mut registry: PipelineRegistry<Append, Idle> = PipelineRegistry::new();
  assert!(!registry.has_unary("x"));
  assert!(!registry.has_action("x"));
  registry.register_unary("x", Append("1"));
  registry.register_unary("y", Append("y"));
  registry.register_unary("x", Append("2"));
  assert!(registry.has_unary("x"));
  assert!(registry.has_unary("y"));
  assert!(!registry.has_action("x"));
  let found = registry.get_unary("x").expect("registered");
  assert_eq!(found.apply("v".to_string()), Ok("v2".to_string()));

  registry.register_action("x", Idle);
  assert!(registry.has_action("x"));
  assert!(!registry.has_unary("x"));
  assert!(registry.has_unary("y"));
  assert!(registry.get_action("x").is_ok());
  registry.register_unary("x", Append("3"));
  assert!(registry.has_unary("x"));
  assert!(!registry.has_action("x"));
}

#[test]
fn registry_names_the_missing_action() {
  let registry: PipelineRegistry<Append, Idle> = PipelineRegistry::default();
  assert_eq!(registry.get_unary("gone").err(), Some("Unknown unary action: gone".to_string()));
  assert_eq!(registry.get_action("gone").err(), Some("Unknown step action: gone".to_string()));
}

#[test]
fn disruptor_refuses_every_publication() {
  let engine = DisruptorEngine::new("bus");
  assert_eq!(engine.name, "bus");
  assert_eq!(engine.publish(3), Err("DisruptorEngine is not implemented".to_string()));
}

#[test]
fn prompt_step_needs_an_adapter() {
  let step = PromptStep::new("spec".to_string());
  let adapter = |input: u32, prompt: &String| -> String { format!("{prompt}:{input}") };
  assert_eq!(step.run(4, Some(adapter)), Ok("spec:4".to_string()));
  let missing: Option<fn(u32, &String) -> String> = None;
  assert_eq!(step.run(4, missing), Err("No prompt adapter provided".to_string()));
}
