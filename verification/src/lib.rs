//! A sequential processing pipeline: ordered steps applied to one value, in
//! the phases `pre`, `main` and `post`, with failures caught per step,
//! short-circuit control and timings; built by hand, incrementally, or from a
//! configuration document whose steps are registered actions or HTTP calls.

pub mod assoc;
pub mod clock;
pub mod config;
pub mod disruptor;
pub mod engine;
pub mod generated;
pub mod json;
pub mod prompt;
pub mod remote;
pub mod text;

pub use crate::config::json_loader::PipelineJsonLoader;
pub use crate::engine::metrics_actions::print_metrics;
pub use crate::engine::pipeline::ActionTiming;
pub use crate::engine::pipeline::DefaultOnError;
pub use crate::engine::pipeline::OnErrorFn;
pub use crate::engine::pipeline::Pipeline;
pub use crate::engine::pipeline::PipelineError;
pub use crate::engine::pipeline::PipelineResult;
pub use crate::engine::pipeline::RegisteredAction;
pub use crate::engine::pipeline::RegisteredActionKind;
pub use crate::engine::pipeline::StepAction;
pub use crate::engine::pipeline::StepControl;
pub use crate::engine::pipeline::UnaryOperator;
pub use crate::engine::registry::PipelineRegistry;
pub use crate::engine::runtime_pipeline::RuntimePipeline;
pub use crate::generated::register_generated_actions;
pub use crate::remote::http_step::http_step;
pub use crate::remote::http_step::RemoteDefaults;
pub use crate::remote::http_step::RemoteSpec;
