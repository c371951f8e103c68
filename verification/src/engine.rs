pub mod laws;
pub mod metrics_actions;
pub mod pipeline;
pub mod pipeline_provider;
pub mod registry;
pub mod runtime_pipeline;
