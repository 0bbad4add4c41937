//! A plain description of the guest module, as far as bootstrap reads it.
//!
//! The decoder and validator of the binary format are external collaborators;
//! the machine only needs to know which imports the module declares and what
//! the export designated as the entry point is. The embedder fills this
//! structure in from whatever representation its engine offers.

use vstd::prelude::*;
use crate::primitives::Signature;

verus! {

/// The kind of an export, as reported by the engine's export lookup.
#[derive(Clone, Copy, Debug, PartialEq, Eq, Structural)]
pub enum ExportKind {
    Function,
    Memory,
    Table,
    Global,
}

/// The kind of a single import, with the signature where it is a function.
#[derive(Debug)]
pub enum ImportKind {
    /// A function import; only these can be resolved and intercepted.
    Function(Signature),
    Global,
    Table,
    Memory,
}

/// One import declared by the guest module.
#[derive(Debug)]
pub struct ImportEntry {
    /// Name of the module the import is requested from.
    pub module: String,
    /// Name of the imported item within that module.
    pub name: String,
    /// What kind of item the import is.
    pub kind: ImportKind,
}

/// What bootstrap reads of a guest module: its declared imports, in order,
/// and the kind of the export named as the entry point, if one exists.
#[derive(Debug)]
pub struct ModuleInfo {
    /// The module's imports, in declaration order.
    pub imports: Vec<ImportEntry>,
    /// The kind of the entry-point export, or `None` when the module does
    /// not export one.
    pub start: Option<ExportKind>,
}

impl ImportEntry {
    /// Whether this import is a function import.
    pub open spec fn is_function(&self) -> bool {
        self.kind is Function
    }
}

impl ModuleInfo {
    /// Whether every import the module declares is a function import.
    pub open spec fn all_imports_are_functions(&self) -> bool {
        forall|i: int| 0 <= i < self.imports@.len() ==> #[trigger] self.imports@[i].is_function()
    }

    /// Whether the module exports an entry point and it is a function.
    pub open spec fn has_function_start(&self) -> bool {
        self.start == Some(ExportKind::Function)
    }
}

} // verus!
