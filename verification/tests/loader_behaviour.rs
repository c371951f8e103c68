use std::sync::Arc;

use pipeline_services::config::json_loader::LoadedStep;
use pipeline_services::json::{JsonNumber, JsonValue};
use pipeline_services::remote::http_step::{HttpReply, HttpRequest, HttpTransport, NoTransport, RemoteSpec};
use pipeline_services::{
  DefaultOnError, Pipeline, PipelineJsonLoader, PipelineRegistry, RegisteredAction, RegisteredActionKind,
  StepAction, StepControl, UnaryOperator,
};

struct Append(&'static str);

impl UnaryOperator<String> for Append {
  fn apply(&self, input: String) -> Result<String, String> {
    Ok(format!("{input}{}", self.0))
  }
}

struct Cut;

impl StepAction<String, DefaultOnError> for Cut {
  fn apply(&self, input: String, control: &mut StepControl<DefaultOnError>) -> Result<String, String> {
    control.short_circuit();
    Ok(format!("{input}cut|"))
  }
}

struct Echo;

impl HttpTransport for Echo {
  fn send(&self, request: &HttpRequest) -> HttpReply {
    HttpReply::Response {
      status: 200,
      status_text: "200 OK".to_string(),
      body: format!("{} {}", request.method, request.endpoint),
    }
  }

  fn pause(&self, millis: u64) {
    drop(millis);
  }
}

type Loaded = Pipeline<LoadedStep<Append, Echo>, Cut, DefaultOnError>;

fn registry() -> PipelineRegistry<Append, Cut> {
  let mut registry: PipelineRegistry<Append, Cut> = PipelineRegistry::new();
  registry.register_unary("a", Append("a|"));
  registry.register_unary("b", Append("b|"));
  registry.register_action("cut", Cut);
  registry
}

fn load(json_text: &str) -> Result<Loaded, String> {
  PipelineJsonLoader::new().load_str(json_text, &registry(), &Arc::new(Echo))
}

fn build(doc: &JsonValue) -> Result<Loaded, String> {
  PipelineJsonLoader::default().build_from_spec(doc, &registry(), &Arc::new(Echo))
}

fn remote_spec(action: &RegisteredAction<LoadedStep<Append, Echo>, Cut>) -> &RemoteSpec {
  match &action.kind {
    RegisteredActionKind::Unary(step) => match &**step {
      LoadedStep::Remote(remote) => &remote.spec,
      LoadedStep::Local(_) => panic!("a local step"),
    },
    RegisteredActionKind::StepAction(_) => panic!("a controlled step"),
  }
}

fn sorted(headers: &Option<Vec<(String, String)>>) -> Vec<(String, String)> {
  let mut list = headers.clone().expect("headers");
  list.sort();
  list
}

#[test]
fn sections_load_in_order() {
  let pipeline = load(
    r#"{
      "pipeline": "doc",
      "post": [{"$local": "b", "label": "end"}],
      "steps": [{"$local": "a"}, {"$local": "cut", "name": "stop"}, {"$local": "b"}],
      "pre": [{"$local": "b", "name": "first", "label": "unused"}, {"$local": "a"}]
    }"#,
  )
  .expect("loaded");
  assert_eq!(pipeline.name, "doc");
  assert_eq!(pipeline.short_circuit_on_exception, true);
  let names = |actions: &Vec<RegisteredAction<LoadedStep<Append, Echo>, Cut>>| -> Vec<String> {
    actions.iter().map(|action| action.name.clone()).collect()
  };
  assert_eq!(names(&pipeline.pre_actions), vec!["first", ""]);
  assert_eq!(names(&pipeline.actions), vec!["", "stop", ""]);
  assert_eq!(names(&pipeline.post_actions), vec!["end"]);
  assert!(matches!(pipeline.actions[1].kind, RegisteredActionKind::StepAction(_)));

  let result = pipeline.execute("".to_string());
  assert_eq!(result.context, "b|a|a|cut|b|");
  assert!(result.short_circuited);
  let timed: Vec<String> = result.timings.iter().map(|timing| timing.action_name.clone()).collect();
  assert_eq!(timed, vec!["pre0:first", "pre1", "s0", "s1:stop", "post0:end"]);
}

#[test]
fn actions_and_steps_name_the_same_phase() {
  let with_actions = load(r#"{"actions": [{"$local": "a"}, {"$local": "b"}]}"#).expect("loaded");
  let with_steps = load(r#"{"steps": [{"$local": "a"}, {"$local": "b"}]}"#).expect("loaded");
  assert_eq!(with_actions.name, "pipeline");
  assert_eq!(with_actions.actions.len(), 2);
  assert_eq!(with_steps.actions.len(), 2);
  assert_eq!(with_actions.run("x|".to_string()), "x|a|b|");
  assert_eq!(with_steps.run("x|".to_string()), "x|a|b|");
}

#[test]
fn actions_take_precedence_over_steps() {
  let pipeline = load(r#"{"steps": [{"$local": "b"}], "actions": [{"$local": "a"}]}"#).expect("loaded");
  assert_eq!(pipeline.run("".to_string()), "a|");
  let ignored = load(r#"{"steps": [{"$local": "b"}], "actions": "none"}"#).expect("loaded");
  assert_eq!(ignored.run("".to_string()), "");
}

#[test]
fn short_circuit_flag_is_read_under_both_names() {
  assert_eq!(load(r#"{}"#).expect("loaded").short_circuit_on_exception, true);
  assert_eq!(load(r#"{"shortCircuitOnException": false}"#).expect("loaded").short_circuit_on_exception, false);
  assert_eq!(load(r#"{"shortCircuit": false}"#).expect("loaded").short_circuit_on_exception, false);
  assert_eq!(
    load(r#"{"shortCircuitOnException": "no", "shortCircuit": false}"#).expect("loaded").short_circuit_on_exception,
    true
  );
  assert_eq!(
    load(r#"{"shortCircuitOnException": true, "shortCircuit": false}"#).expect("loaded").short_circuit_on_exception,
    true
  );
}

#[test]
fn structural_errors_are_described() {
  assert_eq!(load("[]").err(), Some("Pipeline spec must be a JSON object".to_string()));
  assert_eq!(
    load(r#"{"type": "binary"}"#).err(),
    Some("Only 'unary' pipelines are supported by this loader".to_string())
  );
  assert_eq!(load(r#"{"steps": [3]}"#).err(), Some("Each action must be a JSON object".to_string()));
  assert_eq!(load(r#"{"steps": [{"$local": 3}]}"#).err(), Some("$local must be a string".to_string()));
  assert_eq!(
    load(r#"{"steps": [{"$local": "gone"}]}"#).err(),
    Some("Unknown $local reference: gone".to_string())
  );
  assert_eq!(
    load(r#"{"steps": [{"name": "x"}]}"#).err(),
    Some("Unsupported action: expected '$local' or '$remote'".to_string())
  );
  assert_eq!(
    load(r#"{"steps": [{"$remote": 3}]}"#).err(),
    Some("$remote must be a string or an object".to_string())
  );
  assert_eq!(
    load(r#"{"steps": [{"$remote": {"method": "GET"}}]}"#).err(),
    Some("Missing required $remote field: endpoint|path".to_string())
  );
  assert_eq!(
    load(r#"{"steps": [{"$remote": {"path": "/x", "headers": []}}]}"#).err(),
    Some("$remote.headers must be an object".to_string())
  );
  assert_eq!(load(r#"{"remoteDefaults": 1}"#).err(), Some("remoteDefaults must be a JSON object".to_string()));
  assert_eq!(
    load(r#"{"remoteDefaults": {"headers": "x"}}"#).err(),
    Some("remoteDefaults.headers must be an object".to_string())
  );
  assert_eq!(load("{").err(), Some("Invalid JSON: EOF while parsing an object at line 1 column 1".to_string()));
}

#[test]
fn the_first_error_wins() {
  assert_eq!(
    load(r#"{"pre": [{"$local": "a"}, {"$local": "gone"}], "steps": [3], "post": [{"$local": 1}]}"#).err(),
    Some("Unknown $local reference: gone".to_string())
  );
  assert_eq!(
    load(r#"{"pre": [{"$local": "a"}], "steps": [3], "post": [{"$local": 1}]}"#).err(),
    Some("Each action must be a JSON object".to_string())
  );
  assert_eq!(
    load(r#"{"type": "other", "remoteDefaults": 1}"#).err(),
    Some("Only 'unary' pipelines are supported by this loader".to_string())
  );
  assert_eq!(
    load(r#"{"steps": [{"$local": "gone", "$remote": 3}]}"#).err(),
    Some("Unknown $local reference: gone".to_string())
  );
}

#[test]
fn sections_that_are_no_arrays_are_empty() {
  let pipeline = load(r#"{"pre": {"$local": "a"}, "steps": "a", "post": 3}"#).expect("loaded");
  assert!(pipeline.pre_actions.is_empty());
  assert!(pipeline.actions.is_empty());
  assert!(pipeline.post_actions.is_empty());
}

#[test]
fn remote_steps_take_their_fields_from_the_defaults() {
  let pipeline = load(
    r#"{
      "remoteDefaults": {
        "baseUrl": "http://host/api/",
        "timeoutMillis": 250,
        "retries": 2,
        "method": "PUT",
        "headers": {"x-a": "1", "x-b": "2", "x-skip": 3}
      },
      "steps": [
        {"$remote": "/plain"},
        {"$remote": {"endpoint": "http://other/abs"}},
        {"name": "full", "$remote": {
          "path": "items",
          "timeout_millis": 9,
          "retries": 0,
          "method": "get",
          "headers": {"x-b": "two", "x-c": "3", "x-d": null}
        }},
        {"$remote": {"endpoint": "e", "path": "p", "timeoutMillis": 1, "timeout_millis": 2, "headers": {}}}
      ]
    }"#,
  )
  .expect("loaded");
  assert_eq!(pipeline.actions.len(), 4);

  let plain = remote_spec(&pipeline.actions[0]);
  assert_eq!(plain.endpoint, "http://host/api/plain");
  assert_eq!(plain.timeout_millis, 250);
  assert_eq!(plain.retries, 2);
  assert_eq!(plain.method, "PUT");
  assert_eq!(
    sorted(&plain.headers),
    vec![("x-a".to_string(), "1".to_string()), ("x-b".to_string(), "2".to_string())]
  );

  let absolute = remote_spec(&pipeline.actions[1]);
  assert_eq!(absolute.endpoint, "http://other/abs");
  assert_eq!(absolute.method, "PUT");

  assert_eq!(pipeline.actions[2].name, "full");
  let full = remote_spec(&pipeline.actions[2]);
  assert_eq!(full.endpoint, "http://host/api/items");
  assert_eq!(full.timeout_millis, 9);
  assert_eq!(full.retries, 0);
  assert_eq!(full.method, "get");
  assert_eq!(
    sorted(&full.headers),
    vec![
      ("x-a".to_string(), "1".to_string()),
      ("x-b".to_string(), "two".to_string()),
      ("x-c".to_string(), "3".to_string())
    ]
  );

  let both = remote_spec(&pipeline.actions[3]);
  assert_eq!(both.endpoint, "http://host/api/e");
  assert_eq!(both.timeout_millis, 1);
  assert_eq!(sorted(&both.headers).len(), 2);
}

#[test]
fn defaults_are_read_under_their_other_names() {
  let pipeline = load(
    r#"{
      "remoteDefaults": {"endpointBase": "http://base", "timeout_millis": 77},
      "post": [{"$remote": "tail"}]
    }"#,
  )
  .expect("loaded");
  let spec = remote_spec(&pipeline.post_actions[0]);
  assert_eq!(spec.endpoint, "http://base/tail");
  assert_eq!(spec.timeout_millis, 77);
  assert_eq!(spec.retries, 0);
  assert_eq!(spec.method, "POST");
  assert_eq!(spec.headers, None);
}

#[test]
fn remote_steps_without_defaults_use_the_engine_defaults() {
  let pipeline = load(r#"{"steps": [{"$remote": {"path": "http://host/x", "headers": {"x-a": "1"}}}]}"#)
    .expect("loaded");
  let spec = remote_spec(&pipeline.actions[0]);
  assert_eq!(spec.endpoint, "http://host/x");
  assert_eq!(spec.timeout_millis, 1000);
  assert_eq!(spec.retries, 0);
  assert_eq!(spec.method, "POST");
  assert_eq!(spec.headers, Some(vec![("x-a".to_string(), "1".to_string())]));
}

#[test]
fn a_loaded_remote_step_calls_its_endpoint() {
  let pipeline = load(
    r#"{"remoteDefaults": {"baseUrl": "http://host"}, "steps": [{"$local": "a"}, {"$remote": {"path": "x", "method": "get"}}]}"#,
  )
  .expect("loaded");
  assert_eq!(pipeline.run("in".to_string()), "GET http://host/x");
}

#[test]
fn a_failing_remote_step_is_a_step_failure() {
  let pipeline = load(r#"{"pipeline": "r", "steps": [{"$remote": {"path": "http://h/x", "method": "a b"}}, {"$local": "a"}]}"#)
    .expect("loaded");
  let result = pipeline.execute("kept".to_string());
  assert_eq!(result.context, "kept");
  assert!(result.short_circuited);
  assert_eq!(result.errors.len(), 1);
  assert_eq!(result.errors[0].message, "Invalid HTTP method 'a b': invalid HTTP method");
  assert_eq!(result.errors[0].action_name, "s0");
}

#[test]
fn documents_can_be_built_from_values() {
  let doc = JsonValue::Object(vec![
    ("pipeline".to_string(), JsonValue::String("built".to_string())),
    (
      "steps".to_string(),
      JsonValue::Array(vec![JsonValue::Object(vec![
        ("$local".to_string(), JsonValue::String("a".to_string())),
        ("label".to_string(), JsonValue::String("only".to_string())),
      ])]),
    ),
  ]);
  let pipeline = build(&doc).expect("built");
  assert_eq!(pipeline.name, "built");
  assert_eq!(pipeline.actions[0].name, "only");
  assert_eq!(pipeline.run("".to_string()), "a|");

  let odd = JsonValue::Object(vec![
    ("pipeline".to_string(), JsonValue::Number(JsonNumber { unsigned: Some(3) })),
    ("pipeline".to_string(), JsonValue::String("second".to_string())),
  ]);
  let unnamed = build(&odd).expect("built");
  assert_eq!(unnamed.name, "pipeline");

  let typed = JsonValue::Object(vec![("type".to_string(), JsonValue::Bool(true))]);
  assert_eq!(build(&typed).err(), Some("Only 'unary' pipelines are supported by this loader".to_string()));
  assert!(build(&JsonValue::Null).is_err());
}

#[test]
fn names_that_are_no_strings_are_ignored() {
  let pipeline = load(r#"{"pipeline": 3, "steps": [{"$local": "a", "name": 5, "label": "shown"}]}"#)
    .expect("loaded");
  assert_eq!(pipeline.name, "pipeline");
  assert_eq!(pipeline.actions[0].name, "shown");
}

#[test]
fn every_type_but_the_string_unary_is_refused() {
  let refused = Some("Only 'unary' pipelines are supported by this loader".to_string());
  assert_eq!(load(r#"{"type": "binary"}"#).err(), refused);
  assert_eq!(load(r#"{"type": "Unary"}"#).err(), refused);
  assert_eq!(load(r#"{"type": ""}"#).err(), refused);
  assert_eq!(load(r#"{"type": 5}"#).err(), refused);
  assert_eq!(load(r#"{"type": null}"#).err(), refused);
  assert_eq!(load(r#"{"type": true}"#).err(), refused);
  assert_eq!(load(r#"{"type": ["unary"]}"#).err(), refused);
  assert_eq!(load(r#"{"type": {"unary": 1}}"#).err(), refused);
  assert_eq!(load(r#"{"type": 4, "steps": [{"$local": "a"}]}"#).err(), refused);
  assert!(load(r#"{"type": "unary"}"#).is_ok());
  assert!(load(r#"{"pipeline": "untyped"}"#).is_ok());
}

#[test]
fn a_document_without_remote_steps_needs_no_transport() {
  let loader = PipelineJsonLoader::new();
  let without: Pipeline<LoadedStep<Append, NoTransport>, Cut, DefaultOnError> = loader
    .load_str(r#"{"steps": [{"$local": "a"}]}"#, &registry(), &Arc::new(NoTransport))
    .expect("loaded");
  assert_eq!(without.run("".to_string()), "a|");

  let remote: Pipeline<LoadedStep<Append, NoTransport>, Cut, DefaultOnError> = loader
    .load_str(r#"{"pipeline": "n", "steps": [{"$remote": "http://h/x"}]}"#, &registry(), &Arc::new(NoTransport))
    .expect("loaded");
  let result = remote.execute("kept".to_string());
  assert_eq!(result.context, "kept");
  assert_eq!(result.errors.len(), 1);
  assert_eq!(result.errors[0].message, "No HTTP transport is configured");
}

#[test]
fn numbers_that_are_no_unsigned_integers_are_ignored() {
  let pipeline = load(
    r#"{
      "remoteDefaults": {"timeoutMillis": 1.5, "timeout_millis": 40, "retries": -1},
      "steps": [
        {"$remote": {"path": "http://h/a", "timeoutMillis": -3, "retries": 2.0}},
        {"$remote": {"path": "http://h/b", "timeoutMillis": 18446744073709551615, "retries": 7}}
      ]
    }"#,
  )
  .expect("loaded");
  let first = remote_spec(&pipeline.actions[0]);
  assert_eq!(first.timeout_millis, 40);
  assert_eq!(first.retries, 0);
  let second = remote_spec(&pipeline.actions[1]);
  assert_eq!(second.timeout_millis, u64::MAX);
  assert_eq!(second.retries, 7);
}

#[test]
fn members_are_read_in_the_order_of_their_names() {
  let pipeline = load(r#"{"steps": [{"$remote": {"path": "http://h/a", "headers": {"b": "2", "a": "1", "c": "3"}}}]}"#)
    .expect("loaded");
  assert_eq!(
    remote_spec(&pipeline.actions[0]).headers,
    Some(vec![
      ("a".to_string(), "1".to_string()),
      ("b".to_string(), "2".to_string()),
      ("c".to_string(), "3".to_string())
    ])
  );
}
