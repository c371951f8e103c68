use std::sync::{Arc, Mutex};

use pipeline_services::engine::pipeline::{default_on_error, format_action_name, format_step_name, run_phase};
use pipeline_services::text::decimal_string;
use pipeline_services::{
  DefaultOnError, OnErrorFn, Pipeline, PipelineError, RuntimePipeline, StepAction, StepControl, UnaryOperator,
};

struct Append(&'static str);

impl UnaryOperator<String> for Append {
  fn apply(&self, input: String) -> Result<String, String> {
    Ok(format!("{input}{}", self.0))
  }
}

struct Fail(&'static str);

impl UnaryOperator<String> for Fail {
  fn apply(&self, input: String) -> Result<String, String> {
    drop(input);
    Err(self.0.to_string())
  }
}

enum Step {
  Append(Append),
  Fail(Fail),
}

impl UnaryOperator<String> for Step {
  fn apply(&self, input: String) -> Result<String, String> {
    match self {
      Step::Append(step) => step.apply(input),
      Step::Fail(step) => step.apply(input),
    }
  }
}

fn append(suffix: &'static str) -> Step {
  Step::Append(Append(suffix))
}

fn fail(message: &'static str) -> Step {
  Step::Fail(Fail(message))
}

struct Recover;

impl OnErrorFn<String> for Recover {
  fn handle(&self, ctx: String, error: PipelineError) -> String {
    format!("{ctx}|recovered:{}", error.message)
  }
}

enum Controlled<H> {
  ShortCircuit,
  SeeName(Arc<Mutex<Vec<String>>>),
  Never(H),
}

impl<H> StepAction<String, H> for Controlled<H> {
  fn apply(&self, input: String, control: &mut StepControl<H>) -> Result<String, String> {
    match self {
      Controlled::ShortCircuit => {
        control.short_circuit();
        Ok(format!("{input}cut|"))
      }
      Controlled::SeeName(seen) => {
        seen.lock().unwrap().push(control.action_name.clone());
        Ok(input)
      }
      Controlled::Never(_) => Ok(input),
    }
  }
}

type Plain = Pipeline<Step, Controlled<DefaultOnError>, DefaultOnError>;

#[test]
fn decimal_string_writes_digits() {
  assert_eq!(decimal_string(0), "0");
  assert_eq!(decimal_string(7), "7");
  assert_eq!(decimal_string(10), "10");
  assert_eq!(decimal_string(4096), "4096");
}

#[test]
fn action_names_follow_the_phase() {
  assert_eq!(format_action_name("pre", 0, ""), "pre0");
  assert_eq!(format_action_name("post", 3, ""), "post3");
  assert_eq!(format_action_name("main", 12, "strip"), "s12:strip");
  assert_eq!(format_action_name("anything", 7, "x"), "s7:x");
  assert_eq!(format_step_name("pre", 21, "clean"), "pre21:clean");
}

#[test]
fn default_handler_returns_the_value() {
  let error = PipelineError {
    pipeline: "p".to_string(),
    phase: "main".to_string(),
    index: 0,
    action_name: "s0".to_string(),
    message: "m".to_string(),
  };
  assert_eq!(default_on_error("kept".to_string(), error), "kept");
}

#[test]
fn fresh_control_is_idle() {
  let control: StepControl<DefaultOnError> = StepControl::new("p", None);
  assert_eq!(control.pipeline_name, "p");
  assert_eq!(control.phase, "main");
  assert_eq!(control.index, 0);
  assert_eq!(control.action_name, "?");
  assert!(!control.is_short_circuited());
  assert!(control.errors.is_empty());
  assert!(control.timings.is_empty());
  assert_eq!(control.run_elapsed_nanos(), 0);
}

#[test]
fn control_records_errors_and_timings_at_the_current_step() {
  let mut control: StepControl<DefaultOnError> = StepControl::new("p", None);
  control.begin_run();
  control.begin_step("post", 2, "post2:x".to_string());
  let recovered = control.record_error("value".to_string(), "bad".to_string());
  control.record_timing(17, false);
  assert_eq!(recovered, "value");
  assert_eq!(
    control.errors,
    vec![PipelineError {
      pipeline: "p".to_string(),
      phase: "post".to_string(),
      index: 2,
      action_name: "post2:x".to_string(),
      message: "bad".to_string(),
    }]
  );
  assert_eq!(control.timings.len(), 1);
  assert_eq!(control.timings[0].phase, "post");
  assert_eq!(control.timings[0].index, 2);
  assert_eq!(control.timings[0].action_name, "post2:x");
  assert_eq!(control.timings[0].elapsed_nanos, 17);
  assert_eq!(control.timings[0].success, false);
  control.short_circuit();
  assert!(control.is_short_circuited());
  control.reset();
  assert!(!control.is_short_circuited());
  assert!(control.errors.is_empty());
  assert!(control.timings.is_empty());
  assert_eq!(control.phase, "main");
  assert_eq!(control.action_name, "?");
  assert_eq!(control.pipeline_name, "p");
}

#[test]
fn every_step_is_timed_once() {
  let mut pipeline: Plain = Pipeline::new("timed", false);
  pipeline.add_pre_action_named("first", append("a"));
  pipeline.add_action(fail("boom"));
  pipeline.add_action_named("second", append("b"));
  pipeline.add_post_action(append("c"));
  pipeline.add_post_action_named("last", append("d"));

  let result = pipeline.execute("".to_string());
  assert_eq!(result.context, "abcd");
  assert!(result.has_errors());
  let names: Vec<String> = result.timings.iter().map(|timing| timing.action_name.clone()).collect();
  assert_eq!(names, vec!["pre0:first", "s0", "s1:second", "post0", "post1:last"]);
  let phases: Vec<String> = result.timings.iter().map(|timing| timing.phase.clone()).collect();
  assert_eq!(phases, vec!["pre", "main", "main", "post", "post"]);
  let successes: Vec<bool> = result.timings.iter().map(|timing| timing.success).collect();
  assert_eq!(successes, vec![true, false, true, true, true]);
  assert_eq!(
    result.errors,
    vec![PipelineError {
      pipeline: "timed".to_string(),
      phase: "main".to_string(),
      index: 0,
      action_name: "s0".to_string(),
      message: "boom".to_string(),
    }]
  );
}

#[test]
fn post_phase_runs_every_action_after_a_short_circuit() {
  let mut pipeline: Plain = Pipeline::new("p", true);
  pipeline.add_action(fail("stop"));
  pipeline.add_action(append("skipped"));
  pipeline.add_post_action(append("x"));
  pipeline.add_post_action(fail("late"));
  pipeline.add_post_action(append("y"));

  let result = pipeline.execute("in|".to_string());
  assert!(result.short_circuited);
  assert_eq!(result.context, "in|xy");
  let post_timings = result.timings.iter().filter(|timing| timing.phase == "post").count();
  assert_eq!(post_timings, 3);
  assert_eq!(result.errors.len(), 2);
  assert_eq!(result.errors[1].action_name, "post1");
}

#[test]
fn short_circuit_in_pre_skips_main_but_finishes_pre() {
  let mut pipeline: Plain = Pipeline::new("p", true);
  pipeline.add_pre_action_control(Controlled::ShortCircuit);
  pipeline.add_pre_action(append("pre2|"));
  pipeline.add_action(append("main|"));
  pipeline.add_post_action(append("post|"));

  let result = pipeline.execute("".to_string());
  assert!(result.short_circuited);
  assert_eq!(result.context, "cut|pre2|post|");
  assert_eq!(result.timings.len(), 3);
}

#[test]
fn controlled_action_sees_the_step_name() {
  let seen: Arc<Mutex<Vec<String>>> = Arc::new(Mutex::new(Vec::new()));
  let mut pipeline: Plain = Pipeline::new("p", true);
  pipeline.add_pre_action_control_named("watch", Controlled::SeeName(seen.clone()));
  pipeline.add_action_control(Controlled::SeeName(seen.clone()));
  pipeline.add_action_control_named("again", Controlled::SeeName(seen.clone()));
  pipeline.add_post_action_control(Controlled::SeeName(seen.clone()));
  pipeline.add_post_action_control_named("end", Controlled::SeeName(seen.clone()));

  let output = pipeline.run("same".to_string());
  assert_eq!(output, "same");
  assert_eq!(seen.lock().unwrap().clone(), vec!["pre0:watch", "s0", "s1:again", "post0", "post1:end"]);
}

#[test]
fn failure_handler_gives_the_next_value() {
  let mut pipeline: Pipeline<Step, Controlled<Recover>, Recover> = Pipeline::new("p", false);
  pipeline.on_error_handler(Recover);
  pipeline.add_action(append("a"));
  pipeline.add_action(fail("boom"));
  pipeline.add_action(append("z"));

  let result = pipeline.execute("start|".to_string());
  assert_eq!(result.context, "start|a|recovered:boomz");
  assert_eq!(result.errors.len(), 1);
  assert!(!result.short_circuited);
}

#[test]
fn run_phase_stops_only_where_asked() {
  let mut pipeline: Plain = Pipeline::new("p", true);
  pipeline.add_action(append("1"));
  pipeline.add_action(fail("x"));
  pipeline.add_action(append("3"));

  let mut control: StepControl<DefaultOnError> = StepControl::new("p", None);
  let stopped = run_phase(true, "main", "".to_string(), &pipeline.actions, &mut control, true);
  assert_eq!(stopped, "1");
  assert_eq!(control.timings.len(), 2);

  let mut control: StepControl<DefaultOnError> = StepControl::new("p", None);
  let ran_on = run_phase(true, "main", "".to_string(), &pipeline.actions, &mut control, false);
  assert_eq!(ran_on, "13");
  assert_eq!(control.timings.len(), 3);
}

#[test]
fn empty_pipeline_returns_its_input() {
  let pipeline: Plain = Pipeline::new("empty", true);
  let result = pipeline.execute("same".to_string());
  assert_eq!(result.context, "same");
  assert!(!result.short_circuited);
  assert!(!result.has_errors());
  assert!(result.timings.is_empty());
}

type Runtime = RuntimePipeline<String, Step, Controlled<DefaultOnError>, DefaultOnError>;

#[test]
fn runtime_pipeline_applies_each_action_as_added() {
  let mut runtime: Runtime = RuntimePipeline::new("r", false, "x".to_string());
  assert_eq!(runtime.value(), Some(&"x".to_string()));
  assert_eq!(runtime.add_pre_action(append("a")), Some(&"xa".to_string()));
  assert_eq!(runtime.add_action(append("b")), Some(&"xab".to_string()));
  assert_eq!(runtime.add_action(fail("no")), Some(&"xab".to_string()));
  assert_eq!(runtime.add_post_action(append("c")), Some(&"xabc".to_string()));
  assert_eq!(runtime.value(), Some(&"xabc".to_string()));
}

#[test]
fn runtime_pipeline_ends_on_short_circuit() {
  let mut runtime: Runtime = RuntimePipeline::new("r", true, "x".to_string());
  runtime.add_action(append("a"));
  assert_eq!(runtime.add_action_control(Controlled::ShortCircuit), Some(&"xacut|".to_string()));
  assert_eq!(runtime.add_action(append("never")), Some(&"xacut|".to_string()));
  assert_eq!(runtime.add_post_action_control(Controlled::ShortCircuit), Some(&"xacut|".to_string()));

  runtime.reset("y".to_string());
  assert_eq!(runtime.add_post_action(append("b")), Some(&"yb".to_string()));
}

#[test]
fn additions_to_an_ended_runtime_pipeline_are_no_ops() {
  let mut runtime: Runtime = RuntimePipeline::new("r", true, "x".to_string());
  runtime.add_pre_action(append("p"));
  runtime.add_action_control(Controlled::ShortCircuit);
  let before = runtime.freeze();
  assert_eq!(before.pre_actions.len(), 1);
  assert_eq!(before.actions.len(), 1);
  assert_eq!(before.post_actions.len(), 0);

  assert_eq!(runtime.add_pre_action(append("1")), Some(&"xpcut|".to_string()));
  assert_eq!(runtime.add_action(append("2")), Some(&"xpcut|".to_string()));
  assert_eq!(runtime.add_action_control(Controlled::ShortCircuit), Some(&"xpcut|".to_string()));
  assert_eq!(runtime.add_post_action(append("3")), Some(&"xpcut|".to_string()));
  assert_eq!(runtime.add_post_action_control(Controlled::ShortCircuit), Some(&"xpcut|".to_string()));
  assert_eq!(runtime.value(), Some(&"xpcut|".to_string()));
  let after = runtime.freeze();
  assert_eq!(after.pre_actions.len(), 1);
  assert_eq!(after.actions.len(), 1);
  assert_eq!(after.post_actions.len(), 0);

  runtime.reset("y".to_string());
  assert_eq!(runtime.add_post_action(append("q")), Some(&"yq".to_string()));
  assert_eq!(runtime.freeze().post_actions.len(), 1);
}

#[test]
fn results_can_be_copied() {
  let mut pipeline: Plain = Pipeline::new("p", false);
  pipeline.add_action(fail("boom"));
  pipeline.add_post_action(append("z"));
  let result = pipeline.execute("a".to_string());
  let copy = result.clone();
  assert_eq!(copy.context, "az");
  assert_eq!(copy.short_circuited, result.short_circuited);
  assert_eq!(copy.errors, result.errors);
  assert_eq!(copy.timings, result.timings);
  assert_eq!(copy.total_nanos, result.total_nanos);
}

#[test]
fn runtime_pipeline_ends_on_failure_under_the_policy() {
  let mut runtime: Runtime = RuntimePipeline::new("r", true, "x".to_string());
  assert_eq!(runtime.add_action(fail("boom")), Some(&"x".to_string()));
  assert_eq!(runtime.add_action(append("never")), Some(&"x".to_string()));
}

#[test]
fn frozen_pipeline_runs_the_actions_added_so_far() {
  let mut runtime: Runtime = RuntimePipeline::new("r", false, "x".to_string());
  runtime.add_pre_action(append("p"));
  runtime.add_action(append("m"));
  runtime.add_post_action(append("q"));
  let frozen = runtime.freeze();
  runtime.add_action(append("later"));

  assert_eq!(frozen.name, "r");
  assert_eq!(frozen.short_circuit_on_exception, false);
  assert_eq!(frozen.run("in:".to_string()), "in:pmq");
  assert_eq!(runtime.to_immutable().run("in:".to_string()), "in:pmlaterq");
}

#[test]
fn runtime_pipeline_uses_a_new_handler() {
  let mut runtime: RuntimePipeline<String, Step, Controlled<Recover>, Recover> =
    RuntimePipeline::new("r", false, "x".to_string());
  runtime.on_error_handler(Recover);
  assert_eq!(runtime.add_action(fail("boom")), Some(&"x|recovered:boom".to_string()));
  let _ = Controlled::Never(Recover);
}
