use std::sync::{Arc, Mutex};

use pipeline_services::config::json_loader::LoadedStep;
use pipeline_services::remote::http_step::{http_step, HttpReply, HttpRequest, HttpTransport, RemoteSpec};
use pipeline_services::{
  DefaultOnError, Pipeline, PipelineJsonLoader, PipelineRegistry, StepAction, StepControl, UnaryOperator,
};

const REMOTE_FIXTURE_BODY: &str = "Hello from remote fixture\n";

type Control = StepControl<DefaultOnError>;

struct Unary(Box<dyn Fn(String) -> Result<String, String>>);

impl UnaryOperator<String> for Unary {
  fn apply(&self, input: String) -> Result<String, String> {
    (self.0)(input)
  }
}

struct Controlled(Box<dyn Fn(String, &mut Control) -> Result<String, String>>);

impl StepAction<String, DefaultOnError> for Controlled {
  fn apply(&self, input: String, control: &mut Control) -> Result<String, String> {
    (self.0)(input, control)
  }
}

type TestPipeline = Pipeline<Unary, Controlled, DefaultOnError>;

fn identity_action(value: String) -> Result<String, String> {
  Ok(value)
}

struct FixtureServer {
  address: String,
}

impl FixtureServer {
  fn start() -> Self {
    Self { address: "http://127.0.0.1:8765".to_string() }
  }

  fn url(&self, path: &str) -> String {
    format!("{}{}", self.address, path)
  }
}

impl HttpTransport for FixtureServer {
  fn send(&self, request: &HttpRequest) -> HttpReply {
    let path_value = request.endpoint.strip_prefix(self.address.as_str()).unwrap_or("");
    if request.method == "GET" && path_value == "/remote_hello.txt" {
      HttpReply::Response { status: 200, status_text: "200 OK".to_string(), body: REMOTE_FIXTURE_BODY.to_string() }
    } else {
      HttpReply::Response { status: 404, status_text: "404 Not Found".to_string(), body: "not found".to_string() }
    }
  }

  fn pause(&self, millis: u64) {
    drop(millis);
  }
}

#[test]
fn short_circuit_stops_main_only() {
  let calls: Arc<Mutex<Vec<String>>> = Arc::new(Mutex::new(Vec::new()));

  let calls_pre = calls.clone();
  let pre_action = move |ctx: String| -> Result<String, String> {
    calls_pre.lock().unwrap().push("pre".to_string());
    Ok(format!("{ctx}pre|"))
  };

  let calls_one = calls.clone();
  let action_one = move |ctx: String| -> Result<String, String> {
    calls_one.lock().unwrap().push("a1".to_string());
    Ok(format!("{ctx}a1|"))
  };

  let calls_two = calls.clone();
  let action_two_short_circuit = move |ctx: String, control: &mut Control| -> Result<String, String> {
    calls_two.lock().unwrap().push("a2".to_string());
    control.short_circuit();
    Ok(format!("{ctx}a2|"))
  };

  let calls_three = calls.clone();
  let action_three = move |ctx: String| -> Result<String, String> {
    calls_three.lock().unwrap().push("a3".to_string());
    Ok(format!("{ctx}a3|"))
  };

  let calls_post = calls.clone();
  let post_action = move |ctx: String| -> Result<String, String> {
    calls_post.lock().unwrap().push("post".to_string());
    Ok(format!("{ctx}post|"))
  };

  let mut pipeline: TestPipeline = Pipeline::new("t", true);
  pipeline.add_pre_action(Unary(Box::new(pre_action)));
  pipeline.add_action(Unary(Box::new(action_one)));
  pipeline.add_action_control(Controlled(Box::new(action_two_short_circuit)));
  pipeline.add_action(Unary(Box::new(action_three)));
  pipeline.add_post_action(Unary(Box::new(post_action)));

  let result = pipeline.execute("".to_string());
  assert_eq!(result.short_circuited, true);
  assert_eq!(
    calls.lock().unwrap().clone(),
    vec!["pre".to_string(), "a1".to_string(), "a2".to_string(), "post".to_string()]
  );
}

#[test]
fn short_circuit_on_exception_stops_main() {
  let calls: Arc<Mutex<Vec<String>>> = Arc::new(Mutex::new(Vec::new()));

  let calls_fail = calls.clone();
  let failing_action = move |ctx: String| -> Result<String, String> {
    calls_fail.lock().unwrap().push("fail".to_string());
    drop(ctx);
    Err("boom".to_string())
  };

  let calls_later = calls.clone();
  let later_action = move |ctx: String| -> Result<String, String> {
    calls_later.lock().unwrap().push("later".to_string());
    Ok(format!("{ctx}|later"))
  };

  let calls_post = calls.clone();
  let post_action = move |ctx: String| -> Result<String, String> {
    calls_post.lock().unwrap().push("post".to_string());
    Ok(format!("{ctx}|post"))
  };

  let mut pipeline: TestPipeline = Pipeline::new("t", true);
  pipeline.add_action(Unary(Box::new(failing_action)));
  pipeline.add_action(Unary(Box::new(later_action)));
  pipeline.add_post_action(Unary(Box::new(post_action)));

  let result = pipeline.execute("start".to_string());
  assert_eq!(result.short_circuited, true);
  assert_eq!(result.errors.len(), 1);
  assert_eq!(calls.lock().unwrap().clone(), vec!["fail".to_string(), "post".to_string()]);
}

#[test]
fn continue_on_exception_runs_remaining_actions() {
  let calls: Arc<Mutex<Vec<String>>> = Arc::new(Mutex::new(Vec::new()));

  let calls_fail = calls.clone();
  let failing_action = move |ctx: String| -> Result<String, String> {
    calls_fail.lock().unwrap().push("fail".to_string());
    drop(ctx);
    Err("boom".to_string())
  };

  let calls_later = calls.clone();
  let later_action = move |ctx: String| -> Result<String, String> {
    calls_later.lock().unwrap().push("later".to_string());
    Ok(format!("{ctx}|later"))
  };

  let mut pipeline: TestPipeline = Pipeline::new("t", false);
  pipeline.add_action(Unary(Box::new(failing_action)));
  pipeline.add_action(Unary(Box::new(later_action)));

  let result = pipeline.execute("start".to_string());
  assert_eq!(result.short_circuited, false);
  assert_eq!(result.errors.len(), 1);
  assert_eq!(result.context, "start|later".to_string());
  assert_eq!(calls.lock().unwrap().clone(), vec!["fail".to_string(), "later".to_string()]);
}

#[test]
fn json_loader_supports_actions_alias() {
  let mut registry: PipelineRegistry<Unary, Controlled> = PipelineRegistry::new();
  registry.register_unary("identity", Unary(Box::new(identity_action)));

  let json_text = r#"
{
  "pipeline": "t",
  "type": "unary",
  "actions": [
    {"$local": "identity"}
  ]
}
"#;

  let server = Arc::new(FixtureServer::start());
  let loader = PipelineJsonLoader::new();
  let pipeline: Pipeline<LoadedStep<Unary, FixtureServer>, Controlled, DefaultOnError> =
    loader.load_str(json_text, &registry, &server).expect("loader failed");
  let output_value = pipeline.run("ok".to_string());
  assert_eq!(output_value, "ok".to_string());
}

#[test]
fn remote_http_step_get() {
  let server = FixtureServer::start();
  let endpoint = server.url("/remote_hello.txt");

  let mut spec = RemoteSpec::new(endpoint.as_str());
  spec.method = "GET".to_string();
  let response_body = http_step(&spec, "ignored", &server).expect("http_step failed");
  assert_eq!(response_body, REMOTE_FIXTURE_BODY.to_string());
}

#[test]
fn json_loader_remote_get() {
  let server = Arc::new(FixtureServer::start());
  let endpoint = server.url("/remote_hello.txt");

  let json_text = format!(
    r#"
{{
  "pipeline": "t",
  "type": "unary",
  "steps": [
    {{
      "name": "remote_get_fixture",
      "$remote": {{
        "endpoint": "{endpoint}",
        "method": "GET"
      }}
    }}
  ]
}}
"#
  );

  let registry: PipelineRegistry<Unary, Controlled> = PipelineRegistry::new();
  let loader = PipelineJsonLoader::new();
  let pipeline: Pipeline<LoadedStep<Unary, FixtureServer>, Controlled, DefaultOnError> =
    loader.load_str(&json_text, &registry, &server).expect("loader failed");
  let output_value = pipeline.run("ignored".to_string());
  assert_eq!(output_value, REMOTE_FIXTURE_BODY.to_string());
}
