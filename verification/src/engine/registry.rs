//! The registry: the actions that a configuration document may refer to, by
//! name.

use crate::assoc::as_map;
use crate::assoc::delete;
use crate::assoc::distinct_keys;
use crate::assoc::lemma_entry_in_map;
use crate::assoc::position;
use crate::assoc::put;
use crate::engine::pipeline::share;
use crate::text::concat2;
use std::sync::Arc;
use vstd::prelude::*;
use vstd::string::*;

verus! {

/// Two tables of named actions, one of unary and one of controlled actions.
/// A name stands in at most one of the two.
pub struct PipelineRegistry<U, K> {
    unary_actions: Vec<(String, Arc<U>)>,
    step_actions: Vec<(String, Arc<K>)>,
}

/// The mathematical content of a [`PipelineRegistry`].
pub struct PipelineRegistryView<U, K> {
    pub unary_actions: Map<Seq<char>, Arc<U>>,
    pub step_actions: Map<Seq<char>, Arc<K>>,
}

impl<U, K> PipelineRegistryView<U, K> {
    /// Whether no name stands in both tables.
    pub open spec fn disjoint(self) -> bool {
        forall|name: Seq<char>|
            !(self.unary_actions.dom().contains(name) && self.step_actions.dom().contains(name))
    }
}

impl<U, K> View for PipelineRegistry<U, K> {
    type V = PipelineRegistryView<U, K>;

    closed spec fn view(&self) -> PipelineRegistryView<U, K> {
        PipelineRegistryView {
            unary_actions: as_map(self.unary_actions@),
            step_actions: as_map(self.step_actions@),
        }
    }
}

/// The message for a name that the unary table lacks.
pub open spec fn unknown_unary_message(name: Seq<char>) -> Seq<char> {
    "Unknown unary action: "@ + name
}

/// The message for a name that the controlled table lacks.
pub open spec fn unknown_step_message(name: Seq<char>) -> Seq<char> {
    "Unknown step action: "@ + name
}

impl<U, K> PipelineRegistry<U, K> {
    /// Whether the registry is as every operation leaves it: within a table
    /// no name occurs twice, and no name stands in both tables.
    pub closed spec fn wf(&self) -> bool {
        &&& distinct_keys(self.unary_actions@)
        &&& distinct_keys(self.step_actions@)
        &&& self@.disjoint()
    }

    /// No name stands in both tables of a well-formed registry.
    pub proof fn lemma_tables_disjoint(&self)
        requires
            self.wf(),
        ensures
            self@.disjoint(),
    {
    }

    /// A registry without actions.
    pub fn new() -> (registry: Self)
        ensures
            registry.wf(),
            registry@.unary_actions == Map::<Seq<char>, Arc<U>>::empty(),
            registry@.step_actions == Map::<Seq<char>, Arc<K>>::empty(),
    {
        let registry = PipelineRegistry { unary_actions: Vec::new(), step_actions: Vec::new() };
        proof {
            assert(as_map(registry.unary_actions@) =~= Map::<Seq<char>, Arc<U>>::empty());
            assert(as_map(registry.step_actions@) =~= Map::<Seq<char>, Arc<K>>::empty());
        }
        registry
    }

    /// Registers a unary action under `name`. The last registration of a
    /// name wins: an action that stood under it, in either table, is gone.
    pub fn register_unary(&mut self, name: &str, action: U)
        requires
            old(self).wf(),
        ensures
            final(self).wf(),
            final(self)@.unary_actions == old(self)@.unary_actions.insert(name@, Arc::new(action)),
            final(self)@.step_actions == old(self)@.step_actions.remove(name@),
    {
        put(&mut self.unary_actions, String::from_str(name), Arc::new(action));
        delete(&mut self.step_actions, name);
        proof {
            assert forall|other: Seq<char>|
                !(self@.unary_actions.dom().contains(other) && self@.step_actions.dom().contains(
                    other,
                )) by {
                assert(!(old(self)@.unary_actions.dom().contains(other)
                    && old(self)@.step_actions.dom().contains(other)));
            }
        }
    }

    /// Registers a controlled action under `name`. The last registration of
    /// a name wins: an action that stood under it, in either table, is gone.
    pub fn register_action(&mut self, name: &str, action: K)
        requires
            old(self).wf(),
        ensures
            final(self).wf(),
            final(self)@.step_actions == old(self)@.step_actions.insert(name@, Arc::new(action)),
            final(self)@.unary_actions == old(self)@.unary_actions.remove(name@),
    {
        put(&mut self.step_actions, String::from_str(name), Arc::new(action));
        delete(&mut self.unary_actions, name);
        proof {
            assert forall|other: Seq<char>|
                !(self@.unary_actions.dom().contains(other) && self@.step_actions.dom().contains(
                    other,
                )) by {
                assert(!(old(self)@.unary_actions.dom().contains(other)
                    && old(self)@.step_actions.dom().contains(other)));
            }
        }
    }

    /// Whether a unary action stands under `name`.
    pub fn has_unary(&self, name: &str) -> (found: bool)
        ensures
            found == self@.unary_actions.dom().contains(name@),
    {
        position(&self.unary_actions, name).is_some()
    }

    /// Whether a controlled action stands under `name`.
    pub fn has_action(&self, name: &str) -> (found: bool)
        ensures
            found == self@.step_actions.dom().contains(name@),
    {
        position(&self.step_actions, name).is_some()
    }

    /// The unary action registered under `name`, or the message that names
    /// the missing action.
    pub fn get_unary(&self, name: &str) -> (found: Result<Arc<U>, String>)
        requires
            self.wf(),
        ensures
            match found {
                Ok(action) => self@.unary_actions.dom().contains(name@)
                    && action == self@.unary_actions[name@],
                Err(message) => !self@.unary_actions.dom().contains(name@) && message@
                    == unknown_unary_message(name@),
            },
    {
        match position(&self.unary_actions, name) {
            Some(i) => {
                proof {
                    lemma_entry_in_map(self.unary_actions@, i as int);
                }
                Ok(share(&self.unary_actions[i].1))
            },
            None => Err(concat2("Unknown unary action: ", name)),
        }
    }

    /// The controlled action registered under `name`, or the message that
    /// names the missing action.
    pub fn get_action(&self, name: &str) -> (found: Result<Arc<K>, String>)
        requires
            self.wf(),
        ensures
            match found {
                Ok(action) => self@.step_actions.dom().contains(name@)
                    && action == self@.step_actions[name@],
                Err(message) => !self@.step_actions.dom().contains(name@) && message@
                    == unknown_step_message(name@),
            },
    {
        match position(&self.step_actions, name) {
            Some(i) => {
                proof {
                    lemma_entry_in_map(self.step_actions@, i as int);
                }
                Ok(share(&self.step_actions[i].1))
            },
            None => Err(concat2("Unknown step action: ", name)),
        }
    }
}

impl<U, K> Default for PipelineRegistry<U, K> {
    fn default() -> (registry: Self)
        ensures
            registry.wf(),
            registry@.unary_actions == Map::<Seq<char>, Arc<U>>::empty(),
            registry@.step_actions == Map::<Seq<char>, Arc<K>>::empty(),
    {
        Self::new()
    }
}

} // verus!
