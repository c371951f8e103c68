use std::sync::{Arc, Mutex};

use pipeline_services::engine::metrics_actions::{collect_metrics, Metrics, MetricsAction, MetricsSink, NoSink};
use pipeline_services::generated::normalize_name_action::normalize_name_action;
use pipeline_services::generated::GeneratedAction;
use pipeline_services::{
  print_metrics, register_generated_actions, DefaultOnError, Pipeline, PipelineRegistry, StepAction, StepControl, UnaryOperator,
};

struct Idle;

impl StepAction<String, DefaultOnError> for Idle {
  fn apply(&self, input: String, control: &mut StepControl<DefaultOnError>) -> Result<String, String> {
    drop(control);
    Ok(input)
  }
}

#[test]
fn names_are_collapsed_trimmed_and_title_cased() {
  assert_eq!(normalize_name_action("  hELLO   wORLD  ".to_string()), "Hello World");
  assert_eq!(normalize_name_action("a\tb\n c".to_string()), "A B C");
  assert_eq!(normalize_name_action("ada".to_string()), "Ada");
  assert_eq!(normalize_name_action("".to_string()), "");
  assert_eq!(normalize_name_action(" \t ".to_string()), "");
  assert_eq!(normalize_name_action("x".to_string()), "X");
}

#[test]
fn upper_case_may_take_more_than_one_character() {
  assert_eq!(normalize_name_action("\u{df}x Y".to_string()), "SSx Y");
  assert_eq!(normalize_name_action("\u{c9}MILE \u{e9}TIENNE".to_string()), "\u{c9}mile \u{c9}tienne");
}

#[test]
fn generated_actions_are_registered_under_their_names() {
  let mut registry: PipelineRegistry<GeneratedAction, Idle> = PipelineRegistry::new();
  register_generated_actions(&mut registry);
  assert!(registry.has_unary("prompt:normalize_name"));
  let action = registry.get_unary("prompt:normalize_name").expect("registered");
  assert_eq!(action.apply("  jane   DOE ".to_string()), Ok("Jane Doe".to_string()));

  let mut pipeline: Pipeline<GeneratedAction, Idle, DefaultOnError> = Pipeline::new("names", true);
  pipeline.add_action(GeneratedAction::NormalizeName);
  assert_eq!(pipeline.run("gRACE  hopper".to_string()), "Grace Hopper");
}

#[test]
fn metrics_hold_the_last_time_of_each_name() {
  let mut control: StepControl<DefaultOnError> = StepControl::new("m", None);
  control.begin_step("main", 0, "s0".to_string());
  control.record_timing(5, true);
  control.begin_step("main", 1, "s1:x".to_string());
  control.record_timing(7, false);
  let _ = control.record_error("v".to_string(), "bad".to_string());
  control.begin_step("main", 0, "s0".to_string());
  control.record_timing(9, true);
  control.short_circuit();

  let metrics = collect_metrics(&control);
  assert_eq!(metrics.pipeline, "m");
  assert_eq!(metrics.short_circuited, true);
  assert_eq!(metrics.error_count, 1);
  assert_eq!(metrics.pipeline_latency_nanos, 0);
  assert_eq!(metrics.action_latency_nanos, vec![("s0".to_string(), 9), ("s1:x".to_string(), 7)]);
}

struct Recorder(Arc<Mutex<Vec<Metrics>>>);

impl MetricsSink for Recorder {
  fn emit(&self, metrics: Metrics) {
    self.0.lock().unwrap().push(metrics);
  }
}

#[test]
fn metrics_hook_reports_once_per_run_and_passes_the_value_on() {
  let reports: Arc<Mutex<Vec<Metrics>>> = Arc::new(Mutex::new(Vec::new()));
  let mut pipeline: Pipeline<GeneratedAction, MetricsAction<Recorder>, DefaultOnError> = Pipeline::new("hooked", true);
  pipeline.add_action_named("normalize", GeneratedAction::NormalizeName);
  pipeline.add_post_action_control(MetricsAction { sink: Recorder(reports.clone()) });

  let result = pipeline.execute("alan  TURING".to_string());
  assert_eq!(result.context, "Alan Turing");
  assert_eq!(result.timings.len(), 2);
  let reports = reports.lock().unwrap();
  assert_eq!(reports.len(), 1);
  assert_eq!(reports[0].pipeline, "hooked");
  assert_eq!(reports[0].short_circuited, false);
  assert_eq!(reports[0].error_count, 0);
  assert_eq!(reports[0].action_latency_nanos.len(), 1);
  assert_eq!(reports[0].action_latency_nanos[0].0, "s0:normalize");
}

#[test]
fn print_metrics_leaves_the_control_alone() {
  let reports: Arc<Mutex<Vec<Metrics>>> = Arc::new(Mutex::new(Vec::new()));
  let mut control: StepControl<DefaultOnError> = StepControl::new("direct", None);
  control.begin_step("post", 4, "post4".to_string());
  control.record_timing(3, true);
  let value = print_metrics("v".to_string(), &mut control, &Recorder(reports.clone()));
  assert_eq!(value, "v");
  assert_eq!(control.timings.len(), 1);
  assert_eq!(control.action_name, "post4");
  assert_eq!(reports.lock().unwrap()[0].action_latency_nanos, vec![("post4".to_string(), 3)]);
}

#[test]
fn a_hook_without_a_sink_passes_the_value_on() {
  let mut pipeline: Pipeline<GeneratedAction, MetricsAction<NoSink>, DefaultOnError> = Pipeline::new("quiet", true);
  pipeline.add_post_action_control(MetricsAction { sink: NoSink });
  let result = pipeline.execute("same".to_string());
  assert_eq!(result.context, "same");
  assert_eq!(result.timings.len(), 1);
  assert!(!result.has_errors());
}
