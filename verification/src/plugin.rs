//! The notifications a host broadcasts and the interface every plugin offers.

use vstd::prelude::*;

verus! {

/// An administrative event. A value never changes once built; hooks only ever
/// see it by shared reference.
#[derive(Debug, PartialEq, Eq)]
pub enum Action {
    /// The contents of the named queue were deleted.
    DeleteQueue(String),
    /// Every failed job was queued again.
    RetryAll,
}

impl Clone for Action {
    fn clone(&self) -> (copy: Action)
        ensures
            copy == *self,
    {
        match self {
            Action::DeleteQueue(queue) => Action::DeleteQueue(queue.clone()),
            Action::RetryAll => Action::RetryAll,
        }
    }
}

/// What a plugin offers to its host: a name and four hooks, each of which does
/// nothing unless the plugin overrides it. Hooks take `&self` and may run on
/// several threads at once. A hook that panics is not caught: the panic
/// reaches the caller of the manager and ends the dispatch it interrupted.
pub trait Plugin: Send + Sync {
    fn name(&self) -> &'static str;

    /// Called once, right after the instance was registered.
    fn on_plugin_load(&self) {
    }

    /// Called once, right before the instance is destroyed.
    fn on_plugin_unload(&self) {
    }

    /// Called before the host performs `action`.
    fn before_action(&self, _action: &Action) {
    }

    /// Called after the host performed `action`.
    fn after_action(&self, _action: &Action) {
    }
}

/// A plugin object handed over by the module that built it, held in `hooks`.
/// Whoever holds the `Instance` owns the object and alone destroys it.
pub struct Instance {
    pub hooks: Box<dyn Plugin>,
}

impl Instance {
    /// Takes ownership of a freshly built plugin object.
    pub fn new(hooks: Box<dyn Plugin>) -> (instance: Instance)
        ensures
            instance.hooks === hooks,
    {
        Instance { hooks }
    }

    /// The name the plugin gives itself.
    pub fn name(&self) -> &'static str {
        self.hooks.name()
    }
}

} // verus!
