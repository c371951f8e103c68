//! The actions that come with the library.

use crate::engine::pipeline::UnaryOperator;
use crate::engine::registry::PipelineRegistry;
use crate::generated::normalize_name_action::normalized_name;
use std::sync::Arc;
use vstd::prelude::*;

pub mod normalize_name_action;

verus! {

/// An action that comes with the library.
pub enum GeneratedAction {
    /// Brings a name into its normal form.
    NormalizeName,
}

impl UnaryOperator<String> for GeneratedAction {
    /// The action never fails, and gives the normal form of its input.
    open spec fn produces(&self, input: String, outcome: Result<String, String>) -> bool {
        match self {
            GeneratedAction::NormalizeName => outcome matches Ok(name) && name@ == normalized_name(
                input@,
            ),
        }
    }

    fn apply(&self, input: String) -> (outcome: Result<String, String>) {
        match self {
            GeneratedAction::NormalizeName => Ok(
                normalize_name_action::normalize_name_action(input),
            ),
        }
    }
}

/// Registers the actions that come with the library, each under its name.
pub fn register_generated_actions<K>(registry: &mut PipelineRegistry<GeneratedAction, K>)
    requires
        old(registry).wf(),
    ensures
        final(registry).wf(),
        final(registry)@.unary_actions == old(registry)@.unary_actions.insert(
            "prompt:normalize_name"@,
            Arc::new(GeneratedAction::NormalizeName),
        ),
        final(registry)@.step_actions == old(registry)@.step_actions.remove(
            "prompt:normalize_name"@,
        ),
{
    registry.register_unary("prompt:normalize_name", GeneratedAction::NormalizeName);
}

} // verus!
