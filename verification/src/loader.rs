//! What a host reports after it tried to build a plugin from a module file.

use vstd::prelude::*;
use vstd::string::StringExecFns;
use crate::plugin::Instance;

verus! {

/// The name under which every module exports its factory: a function that
/// takes nothing and returns a new plugin object, or nothing at all when it
/// could not build one.
pub const FACTORY_SYMBOL: &'static str = "_plugin_create";

/// The result of one attempt to open a module and run its factory. `M` is the
/// handle that keeps the module mapped.
pub enum LoadOutcome<M> {
    /// The file is not a module that this platform can load.
    OpenFailed(String),
    /// The module exports no factory under the agreed name.
    FactoryMissing(String),
    /// The factory ran and returned no object.
    NullInstance,
    /// The factory returned an object. The instance stands before the module
    /// that built it, so that it is also dropped before it.
    Constructed { instance: Instance, module: M },
}

/// Why loading failed.
#[derive(Debug, PartialEq, Eq)]
pub enum LoadError {
    /// A file could not be loaded as a module.
    ModuleOpen(String),
    /// A module lacks the factory symbol, so it is no plugin.
    SymbolNotFound(String),
    /// A factory reported that it could not build its object.
    NullConstructor,
    /// The plugin directory could not be listed.
    DirectoryRead(String),
}

impl LoadError {
    /// The error in words: what went wrong and, where the host gave one, the
    /// reason.
    pub fn message(&self) -> (text: String)
        ensures
            text@ == (match self {
                LoadError::ModuleOpen(reason) => "cannot open module: "@ + reason@,
                LoadError::SymbolNotFound(reason) => "cannot find plugin factory: "@ + reason@,
                LoadError::NullConstructor => "null pointer from constructor"@,
                LoadError::DirectoryRead(reason) => "cannot read plugin directory: "@ + reason@,
            }),
    {
        match self {
            LoadError::ModuleOpen(reason) => {
                String::from_str("cannot open module: ").concat(reason.as_str())
            },
            LoadError::SymbolNotFound(reason) => {
                String::from_str("cannot find plugin factory: ").concat(reason.as_str())
            },
            LoadError::NullConstructor => String::from_str("null pointer from constructor"),
            LoadError::DirectoryRead(reason) => {
                String::from_str("cannot read plugin directory: ").concat(reason.as_str())
            },
        }
    }
}

impl<M> LoadOutcome<M> {
    /// The error that an outcome stands for, if it is a failure.
    pub open spec fn failure(self) -> Option<LoadError> {
        match self {
            LoadOutcome::OpenFailed(reason) => Some(LoadError::ModuleOpen(reason)),
            LoadOutcome::FactoryMissing(reason) => Some(LoadError::SymbolNotFound(reason)),
            LoadOutcome::NullInstance => Some(LoadError::NullConstructor),
            LoadOutcome::Constructed { .. } => None,
        }
    }
}

} // verus!
