//! Error taxonomy of the embedding layer.
//!
//! Two layers of errors exist. [`WrenVmError`] is a raw event recorded from
//! an interpreter callback while a script runs; events accumulate on the
//! session's queue. [`WrenError`] is the structured result handed to host
//! code once the queue is drained and shaped at the end of an interpret or
//! call operation.
use vstd::prelude::*;

use crate::text::smol_text;
use crate::types::{WrenInterpretResult, WrenType};

verus! {

pub type WrenResult<T> = Result<T, WrenError>;

/// Structured error returned to host code.
#[derive(Debug)]
pub enum WrenError {
    /// One or more compile diagnostics, in source order. The interpreter's
    /// compiler does not stop at the first error.
    CompileError(Vec<WrenCompileError>),
    /// A runtime failure: one message, an optional host-originated cause,
    /// and a stack trace with the top frame first.
    RuntimeError { message: String, foreign: Option<ForeignError>, stack: Vec<WrenStackFrame> },
    /// A module of the given name does not exist.
    ModuleNotFound(String),
    /// A top-level variable of the given name does not exist.
    VariableNotFound(String),
    /// The interpreter reported success, yet error events were queued.
    ResultQueueMismatch,
    /// The interpreter reported the given failure, yet no error events were
    /// queued.
    ErrorAbsent(WrenInterpretResult),
    /// A foreign pointer that was expected to refer to a cell is null.
    NullPtr,
    /// A slot index is negative or at least the current slot count.
    SlotOutOfBounds(i32),
    /// A slot holds a value of the wrong dynamic type.
    SlotType { expected: WrenType, actual: WrenType },
    /// A foreign pointer does not carry the expected type tag.
    ForeignType,
    /// A call from script into a bound host function failed; the cause is
    /// wrapped together with the function's name.
    ForeignCall { function: smol_str::SmolStr, cause: Box<WrenError> },
    /// Reading a call argument out of a slot failed.
    GetArg { slot: i32, cause: Box<WrenError> },
    /// A borrowed handle was leaked or released once already.
    AlreadyLeaked,
    /// A shared borrow of a foreign cell was refused: the cell is mutably
    /// borrowed.
    BorrowError,
    /// A mutable borrow of a foreign cell was refused: the cell is already
    /// borrowed.
    BorrowMutError,
    /// A call signature string does not have the form of a name followed by
    /// a parenthesised arity.
    InvalidSignature,
}

impl WrenError {
    /// Construct a `ForeignCall` variant wrapping a failure that occurred
    /// inside a bound host function.
    pub fn new_foreign_call(function_name: &str, cause: Box<WrenError>) -> (r: Self)
        ensures
            r matches WrenError::ForeignCall { function, cause: c } && smol_text(function)
                == function_name@ && c == cause,
    {
        WrenError::ForeignCall { function: crate::text::smol_new(function_name), cause }
    }

    pub fn is_runtime_error(&self) -> (r: bool)
        ensures
            r == (self is RuntimeError),
    {
        match self {
            WrenError::RuntimeError { .. } => true,
            _ => false,
        }
    }

    pub fn is_compile_error(&self) -> (r: bool)
        ensures
            r == (self is CompileError),
    {
        match self {
            WrenError::CompileError(_) => true,
            _ => false,
        }
    }
}

/// A raw error event recorded from an interpreter callback.
///
/// This is not the error type returned to host code; see [`WrenError`].
#[derive(Debug)]
pub enum WrenVmError {
    /// A compile diagnostic.
    Compile { module: smol_str::SmolStr, message: String, line: i32 },
    /// The runtime error message.
    Runtime { msg: String },
    /// One stack trace frame.
    StackTrace { module: smol_str::SmolStr, function: smol_str::SmolStr, line: i32, is_foreign: bool },
    /// A failure that originated in a bound host function.
    Foreign(ForeignError),
}

/// One frame of a runtime error's stack trace.
#[derive(Debug)]
pub struct WrenStackFrame {
    pub module: smol_str::SmolStr,
    pub function: smol_str::SmolStr,
    pub line: i32,
    pub is_foreign: bool,
}

/// One compile diagnostic.
#[derive(Debug)]
pub struct WrenCompileError {
    pub module: smol_str::SmolStr,
    pub message: String,
    pub line: i32,
}

/// Error raised by a bound host function, carried through the interpreter's
/// fiber abort mechanism back to host code.
#[derive(Debug)]
pub enum ForeignError {
    /// A bare error message.
    Simple(String),
    /// An error message annotated with the script location on whose behalf
    /// the host function ran.
    Annotated { line: i32, module: String, inner: String },
}

impl ForeignError {
    /// The error message, regardless of annotation.
    pub open spec fn inner_spec(self) -> Seq<char> {
        match self {
            ForeignError::Simple(inner) => inner@,
            ForeignError::Annotated { inner, .. } => inner@,
        }
    }

    pub fn new(inner: String) -> (r: Self)
        ensures
            r == ForeignError::Simple(inner),
    {
        ForeignError::Simple(inner)
    }

    pub fn inner(&self) -> (r: &String)
        ensures
            r@ == self.inner_spec(),
    {
        match self {
            ForeignError::Simple(inner) => inner,
            ForeignError::Annotated { inner, .. } => inner,
        }
    }

    pub fn take_inner(self) -> (r: String)
        ensures
            r@ == self.inner_spec(),
    {
        match self {
            ForeignError::Simple(inner) => inner,
            ForeignError::Annotated { inner, .. } => inner,
        }
    }

    /// Abort the running fiber with this error.
    ///
    /// The message is written into the given result slot — the
    /// interpreter's abort primitive reads it from there — and the error
    /// is queued so the aggregation pipeline reports it as the call's
    /// foreign cause. An annotated error first queues a synthetic stack
    /// frame marked foreign, since the interpreter does not trace the
    /// frame of a bound host function itself.
    pub fn put(self, ctx: &mut crate::vm::WrenContext, slot: usize)
        requires
            old(ctx).wf(),
            slot < old(ctx).slots@.len(),
        ensures
            final(ctx).wf(),
            final(ctx).slots@.len() == old(ctx).slots@.len(),
            forall|i: int|
                0 <= i < old(ctx).slots@.len() && i != slot ==> final(ctx).slots@[i] == old(
                    ctx,
                ).slots@[i],
            final(ctx).slots@[slot as int] matches crate::types::SlotValue::Str(s) && s@
                == self.inner_spec(),
            match self {
                ForeignError::Simple(_) => final(ctx).user.errors@ == old(ctx).user.errors@.push(
                    WrenVmError::Foreign(self),
                ),
                ForeignError::Annotated { line, module, .. } => {
                    &&& final(ctx).user.errors@.len() == old(ctx).user.errors@.len() + 2
                    &&& (forall|i: int|
                        0 <= i < old(ctx).user.errors@.len() ==> final(ctx).user.errors@[i] == old(
                            ctx,
                        ).user.errors@[i])
                    &&& (final(ctx).user.errors@[final(ctx).user.errors@.len() - 2]
                        matches WrenVmError::StackTrace { module: m, function: f, line: l, is_foreign }
                        && smol_text(m) == module@ && smol_text(f) == "(foreign)"@ && l == line
                        && is_foreign)
                    &&& final(ctx).user.errors@.last() == WrenVmError::Foreign(self)
                },
            },
            final(ctx).lists == old(ctx).lists,
            final(ctx).cells == old(ctx).cells,
            final(ctx).handles == old(ctx).handles,
            final(ctx).modules == old(ctx).modules,
            final(ctx).user.foreign == old(ctx).user.foreign,
            final(ctx).user.release_queue == old(ctx).user.release_queue,
            final(ctx).user.output == old(ctx).user.output,
    {
        ctx.write_slot(slot, crate::types::SlotValue::Str(self.inner().clone()));
        if let ForeignError::Annotated { line, module, .. } = &self {
            let frame = WrenVmError::StackTrace {
                module: crate::text::smol_new(module.as_str()),
                function: crate::text::smol_new("(foreign)"),
                line: *line,
                is_foreign: true,
            };
            ctx.user.errors.push(frame);
        }
        ctx.user.errors.push(WrenVmError::Foreign(self));
    }
}

} // verus!
