//! The owner of every loaded module and of every plugin instance built from
//! one.

use vstd::prelude::*;
use crate::effect::{
    Effect, Journal, after_calls, before_calls, release_calls, teardown, unload_calls,
};
use crate::loader::{LoadError, LoadOutcome};
use crate::plugin::{Action, Instance};

verus! {

/// Holds the instances and the modules they came from, both in load order,
/// which is also the order in which hooks are dispatched.
///
/// A manager starts out empty, is filled while its owner loads plugins,
/// serves dispatch once it is shared, and is empty again after `unload`.
/// Loading and unloading need exclusive access and dispatch needs shared
/// access, so a manager that is shared between threads can only dispatch, and
/// nothing is added or removed while it does.
///
/// A manager that is dropped without `unload` destroys its instances before it
/// releases its modules, as the order of its fields arranges, but runs no
/// unload hook.
pub struct PluginManager<M> {
    instances: Vec<Instance>,
    modules: Vec<M>,
}

impl<M> PluginManager<M> {
    /// The instances held, in load order.
    pub closed spec fn instances(&self) -> Seq<Instance> {
        self.instances@
    }

    /// The module handles held, in load order.
    pub closed spec fn modules(&self) -> Seq<M> {
        self.modules@
    }

    /// Every instance has its module and every module its instance.
    pub open spec fn balanced(&self) -> bool {
        self.instances().len() == self.modules().len()
    }

    /// Nothing is loaded.
    pub open spec fn idle(&self) -> bool {
        self.instances().len() == 0 && self.modules().len() == 0
    }

    pub fn new() -> (manager: PluginManager<M>)
        ensures
            manager.idle(),
            manager.balanced(),
    {
        PluginManager { instances: Vec::new(), modules: Vec::new() }
    }

    /// The number of instances held.
    pub fn len(&self) -> (count: usize)
        ensures
            count == self.instances().len(),
    {
        self.instances.len()
    }

    /// The number of module handles held.
    pub fn module_count(&self) -> (count: usize)
        ensures
            count == self.modules().len(),
    {
        self.modules.len()
    }

    pub fn is_empty(&self) -> (empty: bool)
        ensures
            empty == self.idle(),
    {
        self.instances.len() == 0 && self.modules.len() == 0
    }

    /// The name of the instance at `position` in load order.
    pub fn name_of(&self, position: usize) -> (name: Option<&'static str>)
        ensures
            name.is_some() == (position < self.instances().len()),
    {
        if position < self.instances.len() {
            Some(self.instances[position].name())
        } else {
            None
        }
    }

    /// Registers what one load attempt produced.
    ///
    /// A constructed plugin is taken over: its module handle is stored first,
    /// then the instance, and then the instance's load hook runs. A failed
    /// attempt changes nothing and comes back as the error it stands for.
    pub fn load_plugin(&mut self, outcome: LoadOutcome<M>) -> (loaded: Result<Journal, LoadError>)
        ensures
            old(self).balanced() ==> final(self).balanced(),
            match outcome {
                LoadOutcome::Constructed { instance, module } => {
                    &&& final(self).instances() == old(self).instances().push(instance)
                    &&& final(self).modules() == old(self).modules().push(module)
                    &&& loaded matches Ok(journal) && journal@ == seq![
                        Effect::LoadHook { instance: old(self).instances().len() as usize },
                    ]
                },
                _ => {
                    &&& *final(self) == *old(self)
                    &&& Some(loaded->Err_0) == outcome.failure()
                    &&& loaded is Err
                },
            },
    {
        match outcome {
            LoadOutcome::OpenFailed(reason) => Err(LoadError::ModuleOpen(reason)),
            LoadOutcome::FactoryMissing(reason) => Err(LoadError::SymbolNotFound(reason)),
            LoadOutcome::NullInstance => Err(LoadError::NullConstructor),
            LoadOutcome::Constructed { instance, module } => {
                let position = self.instances.len();
                self.modules.push(module);
                self.instances.push(instance);
                let mut journal = Journal::new();
                journal.load_hook(&self.instances[position], position);
                assert(journal@ =~= seq![Effect::LoadHook { instance: position }]);
                Ok(journal)
            },
        }
    }

    /// Runs the before-action hook of every instance, in load order, and
    /// returns the journal of the calls.
    pub fn pre_action(&self, action: Action) -> (calls: Journal)
        ensures
            calls@ == before_calls(self.instances().len(), action),
    {
        let mut calls = Journal::new();
        let mut position: usize = 0;
        while position < self.instances.len()
            invariant
                position <= self.instances@.len(),
                calls@ == before_calls(position as nat, action),
            decreases self.instances@.len() - position,
        {
            calls.before_action(&self.instances[position], position, &action);
            position = position + 1;
            assert(calls@ =~= before_calls(position as nat, action));
        }
        calls
    }

    /// Runs the after-action hook of every instance, in load order, and
    /// returns the journal of the calls.
    pub fn post_action(&self, action: Action) -> (calls: Journal)
        ensures
            calls@ == after_calls(self.instances().len(), action),
    {
        let mut calls = Journal::new();
        let mut position: usize = 0;
        while position < self.instances.len()
            invariant
                position <= self.instances@.len(),
                calls@ == after_calls(position as nat, action),
            decreases self.instances@.len() - position,
        {
            calls.after_action(&self.instances[position], position, &action);
            position = position + 1;
            assert(calls@ =~= after_calls(position as nat, action));
        }
        calls
    }

    /// Tears everything down and returns the journal of the steps.
    ///
    /// First every instance, in load order, has its unload hook run and is
    /// destroyed as soon as the hook returns. Only when no instance is left
    /// are the modules released, again in load order.
    pub fn unload(&mut self) -> (steps: Journal)
        ensures
            final(self).idle(),
            steps@ == teardown(old(self).instances().len(), old(self).modules().len()),
    {
        let instance_count: usize = self.instances.len();
        let module_count: usize = self.modules.len();
        let mut steps = Journal::new();
        let mut unloaded: usize = 0;
        assert(steps@ =~= unload_calls(0));
        while self.instances.len() > 0
            invariant
                instance_count == old(self).instances@.len(),
                unloaded + self.instances@.len() == instance_count,
                self.modules@ == old(self).modules@,
                steps@ == unload_calls(unloaded as nat),
            decreases self.instances@.len(),
        {
            let instance = self.instances.remove(0);
            steps.unload_hook(&instance, unloaded);
            steps.destroy(instance, unloaded);
            unloaded = unloaded + 1;
            assert(steps@ =~= unload_calls(unloaded as nat));
        }
        let mut released: usize = 0;
        assert(steps@ =~= unload_calls(unloaded as nat) + release_calls(0));
        while self.modules.len() > 0
            invariant
                self.instances@.len() == 0,
                unloaded == old(self).instances@.len(),
                module_count == old(self).modules@.len(),
                released + self.modules@.len() == module_count,
                steps@ == unload_calls(unloaded as nat) + release_calls(released as nat),
            decreases self.modules@.len(),
        {
            let module = self.modules.remove(0);
            steps.release(module, released);
            released = released + 1;
            assert(steps@ =~= unload_calls(unloaded as nat) + release_calls(released as nat));
        }
        steps
    }
}

} // verus!
