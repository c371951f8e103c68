//! A step that hands its input, with a prompt specification, to an adapter.

use vstd::prelude::*;
use vstd::string::*;

verus! {

/// A prompt specification, waiting for an adapter to run it.
pub struct PromptStep<PromptSpecType> {
    pub prompt_spec: PromptSpecType,
}

/// The message for a run without an adapter.
pub open spec fn no_adapter_message() -> Seq<char> {
    "No prompt adapter provided"@
}

impl<PromptSpecType> PromptStep<PromptSpecType> {
    pub fn new(prompt_spec: PromptSpecType) -> (step: Self)
        ensures
            step.prompt_spec == prompt_spec,
    {
        PromptStep { prompt_spec }
    }

    /// Runs the adapter on the input and the prompt specification; without
    /// an adapter there is nothing to run.
    pub fn run<InputType, OutputType, AdapterFn>(
        &self,
        input_value: InputType,
        adapter: Option<AdapterFn>,
    ) -> (output: Result<OutputType, String>) where
        AdapterFn: Fn(InputType, &PromptSpecType) -> OutputType,

        requires
            adapter matches Some(adapter_function) ==> call_requires(
                adapter_function,
                (input_value, &self.prompt_spec),
            ),
        ensures
            match adapter {
                Some(adapter_function) => output matches Ok(value) && call_ensures(
                    adapter_function,
                    (input_value, &self.prompt_spec),
                    value,
                ),
                None => output matches Err(message) && message@ == no_adapter_message(),
            },
    {
        match adapter {
            Some(adapter_function) => Ok(adapter_function(input_value, &self.prompt_spec)),
            None => Err(String::from_str("No prompt adapter provided")),
        }
    }
}

} // verus!
