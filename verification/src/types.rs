//! Dynamic types of the virtual machine's register slots.
use vstd::prelude::*;

verus! {

/// The dynamic type of a value held in a register slot.
#[derive(Debug, PartialEq, Eq, Structural, Clone, Copy)]
pub enum WrenType {
    Bool,
    Number,
    Foreign,
    List,
    /// The interpreter's key-value map type; opaque to this layer.
    MapVal,
    Null,
    String,
    Unknown,
}

/// Result code handed back by the interpreter for one interpret or call
/// operation.
#[derive(Debug, PartialEq, Eq, Structural, Clone, Copy)]
pub enum WrenInterpretResult {
    Success,
    CompileError,
    RuntimeError,
}

/// A value stored in a register slot.
///
/// The interpreter has a single numeric representation; the codec models it
/// as a 64-bit integer. Lists and foreign objects live on the session's
/// heaps and a slot holds only their index.
#[derive(Debug)]
pub enum SlotValue {
    Null,
    Bool(bool),
    Num(i64),
    Str(String),
    /// Index into the session's list heap.
    List(usize),
    /// Index into the session's foreign cell heap.
    Foreign(usize),
}

impl SlotValue {
    /// The dynamic type of this value.
    pub open spec fn ty(self) -> WrenType {
        match self {
            SlotValue::Null => WrenType::Null,
            SlotValue::Bool(_) => WrenType::Bool,
            SlotValue::Num(_) => WrenType::Number,
            SlotValue::Str(_) => WrenType::String,
            SlotValue::List(_) => WrenType::List,
            SlotValue::Foreign(_) => WrenType::Foreign,
        }
    }

    /// Report the dynamic type of this value.
    pub fn slot_type(&self) -> (t: WrenType)
        ensures
            t == self.ty(),
    {
        match self {
            SlotValue::Null => WrenType::Null,
            SlotValue::Bool(_) => WrenType::Bool,
            SlotValue::Num(_) => WrenType::Number,
            SlotValue::Str(_) => WrenType::String,
            SlotValue::List(_) => WrenType::List,
            SlotValue::Foreign(_) => WrenType::Foreign,
        }
    }
}

impl Clone for SlotValue {
    fn clone(&self) -> (res: Self)
        ensures
            res == self,
    {
        match self {
            SlotValue::Null => SlotValue::Null,
            SlotValue::Bool(b) => SlotValue::Bool(*b),
            SlotValue::Num(n) => SlotValue::Num(*n),
            SlotValue::Str(s) => SlotValue::Str(s.clone()),
            SlotValue::List(id) => SlotValue::List(*id),
            SlotValue::Foreign(id) => SlotValue::Foreign(*id),
        }
    }
}

} // verus!
