//! Handles to values pinned in the interpreter, and calls through them.
//!
//! A handle pins a value against garbage collection. A borrowed handle
//! belongs to one context scope; leaking it turns it into an owned handle
//! and is a one-time, consuming step: the right to queue the release
//! moves into the owned handle, and trying to take it twice fails with
//! `AlreadyLeaked`. Releasing never happens immediately — it is queued
//! and serviced at maintenance checkpoints only.
use vstd::prelude::*;

use crate::errors::{WrenError, WrenResult, WrenVmError};
use crate::sig::{valid_signature, validate_signature};
use crate::types::{SlotValue, WrenInterpretResult, WrenType};
use crate::value::{FromWren, ToWren};
use crate::vm::{
    compile_diags, events_consistent, find_module, first_foreign, lookup_var, runtime_message,
    stack_frames, HandleEntry, HandleTarget, WrenContext,
};

verus! {

/// The right to queue a handle's release. In a session this stands for
/// one endpoint of the release channel; the value itself carries no data,
/// only ownership: a handle whose sender is gone cannot be leaked again.
#[derive(Debug, PartialEq, Eq, Structural, Clone, Copy)]
pub struct DestructorSender;

/// Borrowed handle to a value, scoped to a context.
#[derive(Debug)]
pub struct WrenRef {
    pub handle: usize,
    pub destructors: Option<DestructorSender>,
}

/// Owned handle to a value; lives beyond a context scope and must be
/// released before the session is dropped.
#[derive(Debug)]
pub struct WrenHandle {
    pub handle: usize,
    pub destructors: DestructorSender,
}

impl WrenRef {
    /// The handle refers to a live table entry that pins a value.
    pub open spec fn wf_in(self, ctx: WrenContext) -> bool {
        self.handle < ctx.handles@.len() && ctx.handles@[self.handle as int].alive
            && ctx.handles@[self.handle as int].target is Value
    }

    pub(crate) fn new(handle: usize, destructors: DestructorSender) -> (r: Self)
        ensures
            r == (WrenRef { handle, destructors: Some(destructors) }),
    {
        WrenRef { handle, destructors: Some(destructors) }
    }

    /// What leaking yields: the owned handle while the release right is
    /// still held, `AlreadyLeaked` once it is gone.
    pub open spec fn spec_leak(self) -> Result<WrenHandle, WrenError> {
        match self.destructors {
            Some(d) => Ok(WrenHandle { handle: self.handle, destructors: d }),
            None => Err(WrenError::AlreadyLeaked),
        }
    }

    /// Convert this borrowed handle into an owned [`WrenHandle`].
    ///
    /// Consumes the release right; succeeds at most once per handle. After
    /// a release (or an earlier leak) the right is gone and the result is
    /// `Err(AlreadyLeaked)` — never a double release.
    pub fn leak(self) -> (r: Result<WrenHandle, WrenError>)
        ensures
            r == self.spec_leak(),
    {
        match self.destructors {
            Some(d) => Ok(WrenHandle { handle: self.handle, destructors: d }),
            None => Err(WrenError::AlreadyLeaked),
        }
    }

    /// Give the handle up at the end of its scope: queue its release if
    /// the release right is still held, and consume the right.
    pub fn release(&mut self, ctx: &mut WrenContext)
        requires
            old(ctx).wf(),
            old(self).handle < old(ctx).handles@.len(),
        ensures
            final(ctx).wf(),
            final(self).handle == old(self).handle,
            final(self).destructors is None,
            final(ctx).user.release_queue@ == if old(self).destructors is Some {
                old(ctx).user.release_queue@.push(old(self).handle)
            } else {
                old(ctx).user.release_queue@
            },
            final(ctx).slots == old(ctx).slots,
            final(ctx).lists == old(ctx).lists,
            final(ctx).cells == old(ctx).cells,
            final(ctx).handles == old(ctx).handles,
            final(ctx).modules == old(ctx).modules,
            final(ctx).user.foreign == old(ctx).user.foreign,
            final(ctx).user.errors == old(ctx).user.errors,
            final(ctx).user.output == old(ctx).user.output,
    {
        if self.destructors.is_some() {
            ctx.queue_release(self.handle);
            self.destructors = None;
        }
    }
}

impl WrenHandle {
    /// The handle refers to a live table entry that pins a value.
    pub open spec fn wf_in(self, ctx: WrenContext) -> bool {
        self.handle < ctx.handles@.len() && ctx.handles@[self.handle as int].alive
            && ctx.handles@[self.handle as int].target is Value
    }

    /// Queue this owned handle's release.
    pub fn release(self, ctx: &mut WrenContext)
        requires
            old(ctx).wf(),
            self.handle < old(ctx).handles@.len(),
        ensures
            final(ctx).wf(),
            final(ctx).user.release_queue@ == old(ctx).user.release_queue@.push(self.handle),
            final(ctx).slots == old(ctx).slots,
            final(ctx).lists == old(ctx).lists,
            final(ctx).cells == old(ctx).cells,
            final(ctx).handles == old(ctx).handles,
            final(ctx).modules == old(ctx).modules,
            final(ctx).user.foreign == old(ctx).user.foreign,
            final(ctx).user.errors == old(ctx).user.errors,
            final(ctx).user.output == old(ctx).user.output,
    {
        ctx.queue_release(self.handle);
    }
}

/// Leaking a handle succeeds at most once. A handle that still holds its
/// release right leaks into an owned handle to the same table entry; any
/// handle whose right is gone — because it was leaked or released before
/// — yields `AlreadyLeaked` instead, and in particular never queues a
/// second release.
pub proof fn lemma_leak_once(first: WrenRef)
    requires
        first.destructors is Some,
    ensures
        first.spec_leak() matches Ok(h) && h.handle == first.handle,
        forall|again: WrenRef|
            again.destructors is None ==> #[trigger] again.spec_leak() == Err::<
                WrenHandle,
                WrenError,
            >(WrenError::AlreadyLeaked),
{
}

/// Borrowed handle to a compiled function signature.
#[derive(Debug)]
pub struct FnSymbolRef {
    pub handle: WrenRef,
}

/// Owned handle to a compiled function signature.
#[derive(Debug)]
pub struct FnSymbol {
    pub handle: WrenHandle,
}

impl FnSymbolRef {
    /// The handle refers to a live compiled signature.
    pub open spec fn wf_in(self, ctx: WrenContext) -> bool {
        self.handle.handle < ctx.handles@.len() && ctx.handles@[self.handle.handle as int].alive
            && ctx.handles@[self.handle.handle as int].target is FnSym
    }

    /// Compile a call signature into a function handle.
    ///
    /// A malformed signature — anything but a name followed by its
    /// parenthesised arity of underscores — is a host programming error
    /// and is reported as a result, not a panic.
    pub fn compile(ctx: &mut WrenContext, signature: &str) -> (r: WrenResult<FnSymbolRef>)
        requires
            old(ctx).wf(),
        ensures
            final(ctx).wf(),
            !valid_signature(signature@) ==> r == Err::<FnSymbolRef, WrenError>(
                WrenError::InvalidSignature,
            ) && *final(ctx) == *old(ctx),
            valid_signature(signature@) ==> (r matches Ok(f) && {
                &&& f.handle.handle == old(ctx).handles@.len()
                &&& f.handle.destructors == Some(DestructorSender)
                &&& final(ctx).handles@.len() == old(ctx).handles@.len() + 1
                &&& (forall|i: int|
                    0 <= i < old(ctx).handles@.len() ==> final(ctx).handles@[i] == old(ctx).handles@[i])
                &&& final(ctx).handles@.last().alive
                &&& (final(ctx).handles@.last().target matches HandleTarget::FnSym(s) && s@
                    == signature@)
                &&& f.wf_in(*final(ctx))
            }),
            final(ctx).slots == old(ctx).slots,
            final(ctx).lists == old(ctx).lists,
            final(ctx).cells == old(ctx).cells,
            final(ctx).modules == old(ctx).modules,
            final(ctx).user == old(ctx).user,
    {
        if !validate_signature(signature) {
            return Err(WrenError::InvalidSignature);
        }
        let id = ctx.new_handle(HandleTarget::FnSym(String::from_str(signature)));
        Ok(FnSymbolRef { handle: WrenRef::new(id, DestructorSender) })
    }

    /// Convert into an owned [`FnSymbol`]; consumes the release right,
    /// succeeding at most once.
    pub fn leak(self) -> (r: Result<FnSymbol, WrenError>)
        ensures
            r == (match self.handle.spec_leak() {
                Ok(h) => Ok(FnSymbol { handle: h }),
                Err(e) => Err::<FnSymbol, WrenError>(e),
            }),
    {
        match self.handle.leak() {
            Ok(h) => Ok(FnSymbol { handle: h }),
            Err(e) => Err(e),
        }
    }
}

/// What the black-box interpreter did with one call: its result code, the
/// error events its callbacks recorded, and the value it left in the
/// return slot on success.
#[derive(Debug)]
pub struct CallOutcome {
    pub code: WrenInterpretResult,
    pub events: Vec<WrenVmError>,
    pub returned: SlotValue,
}


/// The result shape of one call, shared by every call operation.
///
/// The error events queued before the call together with those the call
/// recorded are drained against the result code. On success with an
/// empty queue the returned value is read out of the return slot with
/// its type checked; every other combination yields the shaped error
/// that [`WrenContext::take_errors`] defines.
pub open spec fn call_shape<R: FromWren>(
    pre: WrenContext,
    post: WrenContext,
    outcome: CallOutcome,
    r: WrenResult<R>,
) -> bool {
    let evs = pre.user.errors@ + outcome.events@;
    match outcome.code {
        WrenInterpretResult::Success => if evs.len() != 0 {
            r == Err::<R, WrenError>(WrenError::ResultQueueMismatch)
        } else if R::accepts(outcome.returned) {
            r matches Ok(out) && R::extract(pre.handles@, post.handles@, outcome.returned, out)
        } else {
            r == Err::<R, WrenError>(
                WrenError::SlotType { expected: R::expected_type(), actual: outcome.returned.ty() },
            )
        },
        WrenInterpretResult::CompileError => if evs.len() == 0 {
            r == Err::<R, WrenError>(WrenError::ErrorAbsent(outcome.code))
        } else {
            r matches Err(WrenError::CompileError(ds)) && ds@ == compile_diags(evs)
        },
        WrenInterpretResult::RuntimeError => if evs.len() == 0 {
            r == Err::<R, WrenError>(WrenError::ErrorAbsent(outcome.code))
        } else {
            r matches Err(WrenError::RuntimeError { message, foreign, stack }) && message@
                == runtime_message(evs) && foreign == first_foreign(evs) && stack@ == stack_frames(
                evs,
            )
        },
    }
}

/// Perform one call through a receiver handle and a compiled function
/// handle.
///
/// The receiver's pinned value goes into slot zero and the arguments
/// start at slot one, the register file having been grown to fit first.
/// The queued error events are then drained against the result code
/// before any result is read: on failure, the return slot is never
/// touched. On success the returned value is read out of slot zero with
/// the expected type checked.
#[verifier::loop_isolation(false)]
pub fn wren_call<A: ToWren, R: FromWren>(
    ctx: &mut WrenContext,
    receiver: usize,
    func: usize,
    args: A,
    outcome: CallOutcome,
) -> (r: WrenResult<R>)
    requires
        old(ctx).wf(),
        receiver < old(ctx).handles@.len(),
        old(ctx).handles@[receiver as int].alive,
        old(ctx).handles@[receiver as int].target is Value,
        func < old(ctx).handles@.len(),
        old(ctx).handles@[func as int].alive,
        old(ctx).handles@[func as int].target is FnSym,
        args.args_ok(old(ctx).handles@),
        old(ctx).value_ok(outcome.returned),
        events_consistent(outcome.code, old(ctx).user.errors@ + outcome.events@),
        1 + args.width() <= usize::MAX,
    ensures
        final(ctx).wf(),
        final(ctx).user.errors@ == Seq::<WrenVmError>::empty(),
        final(ctx).lists == old(ctx).lists,
        final(ctx).cells == old(ctx).cells,
        final(ctx).modules == old(ctx).modules,
        old(ctx).handles@.is_prefix_of(final(ctx).handles@),
        call_shape::<R>(*old(ctx), *final(ctx), outcome, r),
{
    let hint = args.size_hint();
    ctx.ensure_slots(1 + hint);
    let recv_val = match &ctx.handles[receiver].target {
        HandleTarget::Value(v) => v.clone(),
        HandleTarget::FnSym(_) => {
            proof {
                assert(false);
            }
            SlotValue::Null
        },
    };
    ctx.write_slot(0, recv_val);
    args.put(ctx, 1);
    let CallOutcome { code, mut events, returned } = outcome;
    ctx.user.errors.append(&mut events);
    match ctx.take_errors(code) {
        Ok(()) => {
            ctx.write_slot(0, returned);
            R::get_slot(ctx, 0)
        },
        Err(e) => Err(e),
    }
}

/// Borrowed call reference: a receiver handle paired with a compiled
/// function handle. Both halves are borrowed; reusable across calls.
#[derive(Debug)]
pub struct WrenCallRef {
    pub receiver: WrenRef,
    pub func: FnSymbolRef,
}

impl WrenCallRef {
    pub open spec fn wf_in(self, ctx: WrenContext) -> bool {
        self.receiver.wf_in(ctx) && self.func.wf_in(ctx)
    }

    /// Pair a receiver with a compiled function signature.
    pub fn new(receiver: WrenRef, func: FnSymbolRef) -> (r: Self)
        ensures
            r == (WrenCallRef { receiver, func }),
    {
        WrenCallRef { receiver, func }
    }

    /// Call the method on the receiver; see [`wren_call`].
    pub fn call<A: ToWren, R: FromWren>(
        &self,
        ctx: &mut WrenContext,
        args: A,
        outcome: CallOutcome,
    ) -> (r: WrenResult<R>)
        requires
            old(ctx).wf(),
            self.wf_in(*old(ctx)),
            args.args_ok(old(ctx).handles@),
            old(ctx).value_ok(outcome.returned),
            events_consistent(outcome.code, old(ctx).user.errors@ + outcome.events@),
            1 + args.width() <= usize::MAX,
        ensures
            final(ctx).wf(),
            final(ctx).user.errors@ == Seq::<WrenVmError>::empty(),
            final(ctx).lists == old(ctx).lists,
            final(ctx).cells == old(ctx).cells,
            final(ctx).modules == old(ctx).modules,
            old(ctx).handles@.is_prefix_of(final(ctx).handles@),
            call_shape::<R>(*old(ctx), *final(ctx), outcome, r),
    {
        wren_call::<A, R>(ctx, self.receiver.handle, self.func.handle.handle, args, outcome)
    }

    /// Convert into an owned [`WrenCallHandle`].
    ///
    /// Leaks both halves; if either release right is already gone the
    /// whole conversion fails with `AlreadyLeaked`.
    pub fn leak(self) -> (r: Result<WrenCallHandle, WrenError>)
        ensures
            (self.receiver.destructors is Some && self.func.handle.destructors is Some) ==> (
            r matches Ok(h) && h.receiver.handle == self.receiver.handle && h.func.handle.handle
                == self.func.handle.handle),
            !(self.receiver.destructors is Some && self.func.handle.destructors is Some) ==> r
                == Err::<WrenCallHandle, WrenError>(WrenError::AlreadyLeaked),
    {
        let WrenCallRef { receiver, func } = self;
        match (receiver.leak(), func.leak()) {
            (Ok(receiver), Ok(func)) => Ok(WrenCallHandle { receiver, func }),
            _ => Err(WrenError::AlreadyLeaked),
        }
    }
}

/// Owned call handle: a receiver and a compiled function, both owned.
#[derive(Debug)]
pub struct WrenCallHandle {
    pub receiver: WrenHandle,
    pub func: FnSymbol,
}

impl WrenCallHandle {
    pub open spec fn wf_in(self, ctx: WrenContext) -> bool {
        self.receiver.wf_in(ctx) && self.func.handle.handle < ctx.handles@.len()
            && ctx.handles@[self.func.handle.handle as int].alive && ctx.handles@[self.func.handle.handle as int].target is FnSym
    }

    /// Call the method on the receiver; see [`wren_call`].
    pub fn call<A: ToWren, R: FromWren>(
        &self,
        ctx: &mut WrenContext,
        args: A,
        outcome: CallOutcome,
    ) -> (r: WrenResult<R>)
        requires
            old(ctx).wf(),
            self.wf_in(*old(ctx)),
            args.args_ok(old(ctx).handles@),
            old(ctx).value_ok(outcome.returned),
            events_consistent(outcome.code, old(ctx).user.errors@ + outcome.events@),
            1 + args.width() <= usize::MAX,
        ensures
            final(ctx).wf(),
            final(ctx).user.errors@ == Seq::<WrenVmError>::empty(),
            final(ctx).lists == old(ctx).lists,
            final(ctx).cells == old(ctx).cells,
            final(ctx).modules == old(ctx).modules,
            old(ctx).handles@.is_prefix_of(final(ctx).handles@),
            call_shape::<R>(*old(ctx), *final(ctx), outcome, r),
    {
        wren_call::<A, R>(ctx, self.receiver.handle, self.func.handle.handle, args, outcome)
    }

    /// Queue the release of both halves.
    pub fn release(self, ctx: &mut WrenContext)
        requires
            old(ctx).wf(),
            self.receiver.handle < old(ctx).handles@.len(),
            self.func.handle.handle < old(ctx).handles@.len(),
        ensures
            final(ctx).wf(),
            final(ctx).user.release_queue@ == old(ctx).user.release_queue@.push(
                self.receiver.handle,
            ).push(self.func.handle.handle),
            final(ctx).handles == old(ctx).handles,
            final(ctx).slots == old(ctx).slots,
            final(ctx).lists == old(ctx).lists,
            final(ctx).cells == old(ctx).cells,
            final(ctx).modules == old(ctx).modules,
            final(ctx).user.foreign == old(ctx).user.foreign,
            final(ctx).user.errors == old(ctx).user.errors,
            final(ctx).user.output == old(ctx).user.output,
    {
        self.receiver.release(ctx);
        self.func.handle.release(ctx);
    }
}

impl WrenContext {
    /// A fresh endpoint of the deferred release channel.
    pub fn destructor_sender(&self) -> (r: DestructorSender)
        ensures
            r == DestructorSender,
    {
        DestructorSender
    }

    /// Look a top-level variable up and pin it behind a borrowed handle.
    ///
    /// The variable's value is also placed in slot zero. Fails with
    /// `ModuleNotFound` when no module of the name exists, and with
    /// `VariableNotFound` when the module exists but the variable does
    /// not.
    pub fn get_var(&mut self, module: &str, name: &str) -> (r: WrenResult<WrenRef>)
        requires
            old(self).wf(),
        ensures
            final(self).wf(),
            find_module(old(self).modules@, module@) < 0 ==> (r matches Err(
                WrenError::ModuleNotFound(m),
            ) && m@ == module@ && *final(self) == *old(self)),
            (find_module(old(self).modules@, module@) >= 0 && lookup_var(
                old(self).modules@,
                module@,
                name@,
            ) is None) ==> (r matches Err(WrenError::VariableNotFound(n)) && n@ == name@ && *final(self) == *old(self)),
            lookup_var(old(self).modules@, module@, name@) matches Some(v) ==> (r matches Ok(wr)
                && {
                &&& wr.handle == old(self).handles@.len()
                &&& wr.destructors == Some(DestructorSender)
                &&& final(self).handles@.len() == old(self).handles@.len() + 1
                &&& (forall|i: int|
                    0 <= i < old(self).handles@.len() ==> final(self).handles@[i] == old(self).handles@[i])
                &&& final(self).handles@.last() == (HandleEntry {
                    alive: true,
                    target: HandleTarget::Value(v),
                })
                &&& wr.wf_in(*final(self))
                &&& final(self).slots@.len() >= 1
                &&& final(self).slots@[0] == v
            }),
            final(self).lists == old(self).lists,
            final(self).cells == old(self).cells,
            final(self).modules == old(self).modules,
            final(self).user == old(self).user,
    {
        if !self.has_module(module) {
            return Err(WrenError::ModuleNotFound(String::from_str(module)));
        }
        match self.read_var(module, name) {
            None => Err(WrenError::VariableNotFound(String::from_str(name))),
            Some(v) => {
                self.ensure_slots(1);
                let ghost mid = *self;
                self.write_slot(0, v.clone());
                let id = self.new_handle(HandleTarget::Value(v));
                Ok(WrenRef::new(id, DestructorSender))
            },
        }
    }

    /// Build a call reference from a receiver variable and a signature.
    ///
    /// Fails like [`WrenContext::get_var`] when the variable is missing
    /// and like [`FnSymbolRef::compile`] when the signature is malformed;
    /// in the latter case the already-pinned receiver is given back to the
    /// release queue.
    pub fn make_call_ref(&mut self, module: &str, variable: &str, func_sig: &str) -> (r: WrenResult<
        crate::handle::WrenCallRef,
    >)
        requires
            old(self).wf(),
        ensures
            final(self).wf(),
            final(self).lists == old(self).lists,
            final(self).cells == old(self).cells,
            final(self).modules == old(self).modules,
            find_module(old(self).modules@, module@) < 0 ==> (r matches Err(
                WrenError::ModuleNotFound(m),
            ) && m@ == module@),
            (find_module(old(self).modules@, module@) >= 0 && lookup_var(
                old(self).modules@,
                module@,
                variable@,
            ) is None) ==> (r matches Err(WrenError::VariableNotFound(n)) && n@ == variable@),
            (lookup_var(old(self).modules@, module@, variable@) is Some && !valid_signature(
                func_sig@,
            )) ==> r == Err::<WrenCallRef, WrenError>(WrenError::InvalidSignature),
            (lookup_var(old(self).modules@, module@, variable@) is Some && valid_signature(
                func_sig@,
            )) ==> (r matches Ok(cr) && cr.wf_in(*final(self)) && cr.receiver.destructors is Some
                && cr.func.handle.destructors is Some),
    {
        let receiver = match self.get_var(module, variable) {
            Ok(wr) => wr,
            Err(e) => {
                return Err(e);
            },
        };
        match FnSymbolRef::compile(self, func_sig) {
            Ok(func) => Ok(WrenCallRef::new(receiver, func)),
            Err(e) => {
                let mut receiver = receiver;
                receiver.release(self);
                Err(e)
            },
        }
    }

    /// The value of a module's top-level variable, if both exist.
    fn read_var(&self, module: &str, name: &str) -> (r: Option<SlotValue>)
        requires
            self.wf(),
        ensures
            r == lookup_var(self.modules@, module@, name@),
            r matches Some(v) ==> self.value_ok(v),
    {
        match self.find_module_exec(module) {
            None => None,
            Some(m) => self.lookup_var_exec(m, name),
        }
    }
}

impl ToWren for WrenRef {
    open spec fn width(&self) -> int {
        1
    }

    open spec fn args_ok(&self, handles: Seq<HandleEntry>) -> bool {
        self.handle < handles.len() && handles[self.handle as int].alive
            && handles[self.handle as int].target is Value
    }

    open spec fn put_post(&self, handles: Seq<HandleEntry>, vals: Seq<SlotValue>) -> bool {
        vals.len() == 1 && (handles[self.handle as int].target matches HandleTarget::Value(v)
            && vals[0] == v)
    }

    proof fn lemma_width_pos(&self) {
    }

    fn size_hint(&self) -> usize {
        1
    }

    fn put(self, ctx: &mut WrenContext, slot: usize) {
        let v = match &ctx.handles[self.handle].target {
            HandleTarget::Value(v) => v.clone(),
            // Unreachable: the handle is known to pin a value.
            HandleTarget::FnSym(_) => {
                proof {
                    assert(false);
                }
                SlotValue::Null
            },
        };
        ctx.write_slot(slot, v);
        // Passing the handle by value gives it up: its release is queued,
        // as dropping the borrowed handle would.
        if self.destructors.is_some() {
            ctx.queue_release(self.handle);
        }
        proof {
            assert(ctx.slots@.subrange(slot as int, slot as int + 1).len() == 1);
            assert(ctx.slots@.subrange(slot as int, slot as int + 1)[0] == ctx.slots@[slot as int]);
        }
    }
}

impl<'a> ToWren for &'a WrenRef {
    open spec fn width(&self) -> int {
        1
    }

    open spec fn args_ok(&self, handles: Seq<HandleEntry>) -> bool {
        self.handle < handles.len() && handles[self.handle as int].alive
            && handles[self.handle as int].target is Value
    }

    open spec fn put_post(&self, handles: Seq<HandleEntry>, vals: Seq<SlotValue>) -> bool {
        vals.len() == 1 && (handles[self.handle as int].target matches HandleTarget::Value(v)
            && vals[0] == v)
    }

    proof fn lemma_width_pos(&self) {
    }

    fn size_hint(&self) -> usize {
        1
    }

    fn put(self, ctx: &mut WrenContext, slot: usize) {
        let v = match &ctx.handles[self.handle].target {
            HandleTarget::Value(v) => v.clone(),
            // Unreachable: the handle is known to pin a value.
            HandleTarget::FnSym(_) => {
                proof {
                    assert(false);
                }
                SlotValue::Null
            },
        };
        ctx.write_slot(slot, v);
        proof {
            assert(ctx.slots@.subrange(slot as int, slot as int + 1).len() == 1);
            assert(ctx.slots@.subrange(slot as int, slot as int + 1)[0] == ctx.slots@[slot as int]);
        }
    }
}

impl ToWren for WrenHandle {
    open spec fn width(&self) -> int {
        1
    }

    open spec fn args_ok(&self, handles: Seq<HandleEntry>) -> bool {
        self.handle < handles.len() && handles[self.handle as int].alive
            && handles[self.handle as int].target is Value
    }

    open spec fn put_post(&self, handles: Seq<HandleEntry>, vals: Seq<SlotValue>) -> bool {
        vals.len() == 1 && (handles[self.handle as int].target matches HandleTarget::Value(v)
            && vals[0] == v)
    }

    proof fn lemma_width_pos(&self) {
    }

    fn size_hint(&self) -> usize {
        1
    }

    fn put(self, ctx: &mut WrenContext, slot: usize) {
        let v = match &ctx.handles[self.handle].target {
            HandleTarget::Value(v) => v.clone(),
            // Unreachable: the handle is known to pin a value.
            HandleTarget::FnSym(_) => {
                proof {
                    assert(false);
                }
                SlotValue::Null
            },
        };
        ctx.write_slot(slot, v);
        // Passing the owned handle by value gives it up: its release is
        // queued, as dropping it would.
        ctx.queue_release(self.handle);
        proof {
            assert(ctx.slots@.subrange(slot as int, slot as int + 1).len() == 1);
            assert(ctx.slots@.subrange(slot as int, slot as int + 1)[0] == ctx.slots@[slot as int]);
        }
    }
}

impl<'a> ToWren for &'a WrenHandle {
    open spec fn width(&self) -> int {
        1
    }

    open spec fn args_ok(&self, handles: Seq<HandleEntry>) -> bool {
        self.handle < handles.len() && handles[self.handle as int].alive
            && handles[self.handle as int].target is Value
    }

    open spec fn put_post(&self, handles: Seq<HandleEntry>, vals: Seq<SlotValue>) -> bool {
        vals.len() == 1 && (handles[self.handle as int].target matches HandleTarget::Value(v)
            && vals[0] == v)
    }

    proof fn lemma_width_pos(&self) {
    }

    fn size_hint(&self) -> usize {
        1
    }

    fn put(self, ctx: &mut WrenContext, slot: usize) {
        let v = match &ctx.handles[self.handle].target {
            HandleTarget::Value(v) => v.clone(),
            // Unreachable: the handle is known to pin a value.
            HandleTarget::FnSym(_) => {
                proof {
                    assert(false);
                }
                SlotValue::Null
            },
        };
        ctx.write_slot(slot, v);
        proof {
            assert(ctx.slots@.subrange(slot as int, slot as int + 1).len() == 1);
            assert(ctx.slots@.subrange(slot as int, slot as int + 1)[0] == ctx.slots@[slot as int]);
        }
    }
}

impl FromWren for WrenRef {
    open spec fn expected_type() -> WrenType {
        WrenType::Unknown
    }

    open spec fn accepts(v: SlotValue) -> bool {
        true
    }

    open spec fn extract(
        pre_handles: Seq<HandleEntry>,
        post_handles: Seq<HandleEntry>,
        v: SlotValue,
        out: Self,
    ) -> bool {
        &&& post_handles == pre_handles.push(
            HandleEntry { alive: true, target: HandleTarget::Value(v) },
        )
        &&& out.handle == pre_handles.len()
        &&& out.destructors == Some(DestructorSender)
    }

    fn get_slot(ctx: &mut WrenContext, slot: i32) -> (r: Result<Self, WrenError>) {
        if slot < 0 {
            return Err(WrenError::SlotOutOfBounds(slot));
        }
        let idx = slot as usize;
        if idx >= ctx.slots.len() {
            return Err(WrenError::SlotOutOfBounds(slot));
        }
        let v = ctx.slots[idx].clone();
        let id = ctx.new_handle(HandleTarget::Value(v));
        Ok(WrenRef::new(id, DestructorSender))
    }
}

} // verus!
