//! The record of what a manager does to the foreign objects it owns.
//!
//! Hooks run inside plugin code and leave no trace that a contract could
//! speak of. So every step on an instance or a module is taken through a
//! `Journal`, which takes the step and writes it down in one go, and every
//! operation of the manager hands back the journal it kept. The functions
//! below say what those journals hold, and the lemmas say in which order the
//! entries of such a list stand.

use vstd::prelude::*;
use crate::plugin::{Action, Instance};

verus! {

/// One step taken on an instance or on a module. Instances and modules are
/// named by their position in load order.
#[derive(Debug, PartialEq, Eq)]
pub enum Effect {
    /// The load hook of an instance ran.
    LoadHook { instance: usize },
    /// The before-action hook of an instance ran with `action`.
    BeforeAction { instance: usize, action: Action },
    /// The after-action hook of an instance ran with `action`.
    AfterAction { instance: usize, action: Action },
    /// The unload hook of an instance ran.
    UnloadHook { instance: usize },
    /// An instance was destroyed.
    Destroy { instance: usize },
    /// A module was released.
    Release { module: usize },
}

impl Effect {
    /// The instance that a step touches, if it touches one.
    pub open spec fn target(self) -> Option<usize> {
        match self {
            Effect::LoadHook { instance } => Some(instance),
            Effect::BeforeAction { instance, .. } => Some(instance),
            Effect::AfterAction { instance, .. } => Some(instance),
            Effect::UnloadHook { instance } => Some(instance),
            Effect::Destroy { instance } => Some(instance),
            Effect::Release { .. } => None,
        }
    }
}

/// The steps that one operation took, in the order it took them. Nothing but
/// the functions that take a step can add an entry.
#[derive(Debug, PartialEq, Eq)]
pub struct Journal {
    entries: Vec<Effect>,
}

impl View for Journal {
    type V = Seq<Effect>;

    closed spec fn view(&self) -> Seq<Effect> {
        self.entries@
    }
}

impl Journal {
    /// A journal without entries.
    pub(crate) fn new() -> (journal: Journal)
        ensures
            journal@ == Seq::<Effect>::empty(),
    {
        Journal { entries: Vec::new() }
    }

    /// Runs the load hook of `instance`, which stands at `position`.
    pub(crate) fn load_hook(&mut self, instance: &Instance, position: usize)
        ensures
            final(self)@ == old(self)@.push(Effect::LoadHook { instance: position }),
    {
        instance.hooks.on_plugin_load();
        self.entries.push(Effect::LoadHook { instance: position });
    }

    /// Runs the before-action hook of `instance`, which stands at `position`.
    pub(crate) fn before_action(&mut self, instance: &Instance, position: usize, action: &Action)
        ensures
            final(self)@ == old(self)@.push(
                Effect::BeforeAction { instance: position, action: *action },
            ),
    {
        instance.hooks.before_action(action);
        self.entries.push(Effect::BeforeAction { instance: position, action: action.clone() });
    }

    /// Runs the after-action hook of `instance`, which stands at `position`.
    pub(crate) fn after_action(&mut self, instance: &Instance, position: usize, action: &Action)
        ensures
            final(self)@ == old(self)@.push(
                Effect::AfterAction { instance: position, action: *action },
            ),
    {
        instance.hooks.after_action(action);
        self.entries.push(Effect::AfterAction { instance: position, action: action.clone() });
    }

    /// Runs the unload hook of `instance`, which stood at `position`.
    pub(crate) fn unload_hook(&mut self, instance: &Instance, position: usize)
        ensures
            final(self)@ == old(self)@.push(Effect::UnloadHook { instance: position }),
    {
        instance.hooks.on_plugin_unload();
        self.entries.push(Effect::UnloadHook { instance: position });
    }

    /// Ends the life of `instance`, which stood at `position`.
    pub(crate) fn destroy(&mut self, instance: Instance, position: usize)
        ensures
            final(self)@ == old(self)@.push(Effect::Destroy { instance: position }),
    {
        let Instance { hooks } = instance;
        Self::give_up(hooks);
        self.entries.push(Effect::Destroy { instance: position });
    }

    /// Gives up the handle `module`, which stood at `position`; this unmaps
    /// the module.
    pub(crate) fn release<M>(&mut self, module: M, position: usize)
        ensures
            final(self)@ == old(self)@.push(Effect::Release { module: position }),
    {
        Self::give_up(module);
        self.entries.push(Effect::Release { module: position });
    }

    /// Drops a value.
    fn give_up<T>(value: T) {
    }

    /// The entries, first step first.
    pub fn entries(&self) -> (entries: &Vec<Effect>)
        ensures
            entries@ == self@,
    {
        &self.entries
    }

    /// The entries, first step first.
    pub fn into_entries(self) -> (entries: Vec<Effect>)
        ensures
            entries@ == self@,
    {
        self.entries
    }

    /// The number of steps taken.
    pub fn len(&self) -> (count: usize)
        ensures
            count == self@.len(),
    {
        self.entries.len()
    }

    pub fn is_empty(&self) -> (empty: bool)
        ensures
            empty == (self@.len() == 0),
    {
        self.entries.len() == 0
    }
}

/// The steps of notifying `count` instances before `action`.
pub open spec fn before_calls(count: nat, action: Action) -> Seq<Effect> {
    Seq::new(count, |i: int| Effect::BeforeAction { instance: i as usize, action })
}

/// The steps of notifying `count` instances after `action`.
pub open spec fn after_calls(count: nat, action: Action) -> Seq<Effect> {
    Seq::new(count, |i: int| Effect::AfterAction { instance: i as usize, action })
}

/// The steps of unloading `count` instances: for each in turn its unload hook,
/// then its destruction.
pub open spec fn unload_calls(count: nat) -> Seq<Effect> {
    Seq::new(
        2 * count,
        |k: int|
            if k % 2 == 0 {
                Effect::UnloadHook { instance: (k / 2) as usize }
            } else {
                Effect::Destroy { instance: (k / 2) as usize }
            },
    )
}

/// The steps of releasing `count` modules.
pub open spec fn release_calls(count: nat) -> Seq<Effect> {
    Seq::new(count, |j: int| Effect::Release { module: j as usize })
}

/// The steps of tearing down a manager that holds `instances` instances and
/// `modules` modules: every instance is unloaded and destroyed before the
/// first module is released.
pub open spec fn teardown(instances: nat, modules: nat) -> Seq<Effect> {
    unload_calls(instances) + release_calls(modules)
}

/// The list `before_calls` has one entry for each instance: the entry at `k`
/// names instance `k` and holds the action that was given, and no two entries
/// name the same instance.
pub proof fn before_calls_follow_load_order(count: nat, action: Action)
    requires
        count <= usize::MAX,
    ensures
        before_calls(count, action).len() == count,
        forall|k: int|
            0 <= k < count ==> (#[trigger] before_calls(count, action)[k]) == (Effect::BeforeAction {
                instance: k as usize,
                action,
            }),
        forall|a: int, b: int|
            0 <= a < count && 0 <= b < count && (#[trigger] before_calls(count, action)[a]).target()
                == (#[trigger] before_calls(count, action)[b]).target() ==> a == b,
{
}

/// The list `after_calls` has one entry for each instance: the entry at `k`
/// names instance `k` and holds the action that was given, and no two entries
/// name the same instance.
pub proof fn after_calls_follow_load_order(count: nat, action: Action)
    requires
        count <= usize::MAX,
    ensures
        after_calls(count, action).len() == count,
        forall|k: int|
            0 <= k < count ==> (#[trigger] after_calls(count, action)[k]) == (Effect::AfterAction {
                instance: k as usize,
                action,
            }),
        forall|a: int, b: int|
            0 <= a < count && 0 <= b < count && (#[trigger] after_calls(count, action)[a]).target()
                == (#[trigger] after_calls(count, action)[b]).target() ==> a == b,
{
}

/// The list `teardown` holds, for each instance in load order, one unload
/// entry directly followed by the entry of its destruction, and after all of
/// them one release entry for each module in load order: every entry that
/// names an instance stands before every release entry.
pub proof fn teardown_unloads_before_release(instances: nat, modules: nat)
    requires
        instances <= usize::MAX,
        modules <= usize::MAX,
    ensures
        teardown(instances, modules).len() == 2 * instances + modules,
        forall|i: int|
            0 <= i < instances ==> (#[trigger] teardown(instances, modules)[2 * i])
                == (Effect::UnloadHook { instance: i as usize }),
        forall|i: int|
            0 <= i < instances ==> (#[trigger] teardown(instances, modules)[2 * i + 1])
                == (Effect::Destroy { instance: i as usize }),
        forall|j: int|
            0 <= j < modules ==> (#[trigger] teardown(instances, modules)[2 * instances + j])
                == (Effect::Release { module: j as usize }),
        forall|k: int|
            0 <= k < teardown(instances, modules).len() ==> ((#[trigger] teardown(
                instances,
                modules,
            )[k]) matches Effect::UnloadHook { instance } ==> k == 2 * instance),
        forall|a: int, b: int|
            0 <= a < teardown(instances, modules).len() && 0 <= b < teardown(
                instances,
                modules,
            ).len() && (#[trigger] teardown(instances, modules)[a]).target().is_some()
                && (#[trigger] teardown(instances, modules)[b]) is Release ==> a < b,
{
}

} // verus!
