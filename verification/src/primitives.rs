//! Value kinds exchanged between the host and the guest program.

use vstd::prelude::*;

verus! {

/// A value passed to or returned from guest code.
///
/// Floating-point kinds are carried as their raw bit patterns so that the
/// driver can route them without interpreting them; the embedder converts
/// at the boundary where an actual float is needed.
#[derive(Clone, Copy, Debug, PartialEq, Eq, Structural)]
pub enum WasmValue {
    /// A 32-bit integer.
    I32(i32),
    /// A 64-bit integer.
    I64(i64),
    /// The bit pattern of a 32-bit float.
    F32Bits(u32),
    /// The bit pattern of a 64-bit float.
    F64Bits(u64),
}

/// The kind of a single parameter or result slot of an import.
#[derive(Clone, Copy, Debug, PartialEq, Eq, Structural)]
pub enum ValueType {
    I32,
    I64,
    F32,
    F64,
}

/// The abstract type of an import: its ordered parameter kinds and its
/// optional single result kind. Used only to let the host resolver classify
/// imports; multi-value results are not supported.
#[derive(Debug, PartialEq)]
pub struct Signature {
    /// Kinds of the parameters, in order.
    pub params: Vec<ValueType>,
    /// Kind of the result, if the import returns one.
    pub result: Option<ValueType>,
}

impl Signature {
    /// Whether an import with this signature returns a value.
    pub open spec fn returns_value_spec(&self) -> bool {
        self.result is Some
    }

    /// Whether an import with this signature returns a value.
    pub fn returns_value(&self) -> (r: bool)
        ensures
            r == self.returns_value_spec(),
    {
        self.result.is_some()
    }
}

} // verus!
