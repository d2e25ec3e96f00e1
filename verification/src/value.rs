//! The slot value codec: host values to and from register slots.
//!
//! Writing is infallible once the slots exist; reading is checked and
//! fails with a typed error when the slot is out of bounds or holds a
//! value of another dynamic type. The interpreter has one numeric
//! representation, modelled as a 64-bit integer: every host integer width
//! converts to and from it, and narrowing truncates, which is the
//! caller's affair, not an error.
use vstd::prelude::*;

use crate::errors::WrenError;
use crate::types::{SlotValue, WrenType};
use crate::vm::{HandleEntry, WrenContext};

verus! {

/// What a write operation may change besides the written slots: nothing
/// but possibly queueing handle releases.
pub open spec fn put_frame(pre: WrenContext, post: WrenContext) -> bool {
    &&& post.lists == pre.lists
    &&& post.cells == pre.cells
    &&& post.handles == pre.handles
    &&& post.modules == pre.modules
    &&& post.user.foreign == pre.user.foreign
    &&& post.user.errors == pre.user.errors
    &&& post.user.output == pre.user.output
    &&& pre.user.release_queue@.is_prefix_of(post.user.release_queue@)
}

/// What a read operation may change: nothing but possibly pinning new
/// handles.
pub open spec fn get_frame(pre: WrenContext, post: WrenContext) -> bool {
    &&& post.slots == pre.slots
    &&& post.lists == pre.lists
    &&& post.cells == pre.cells
    &&& post.modules == pre.modules
    &&& post.user == pre.user
    &&& pre.handles@.is_prefix_of(post.handles@)
}

/// The error a failed slot read reports: the index when it is out of
/// bounds, otherwise the expected and actual dynamic types.
pub open spec fn slot_error(ctx: WrenContext, slot: i32, expected: WrenType) -> WrenError {
    if slot < 0 || slot >= ctx.slots@.len() {
        WrenError::SlotOutOfBounds(slot)
    } else {
        WrenError::SlotType { expected, actual: ctx.slots@[slot as int].ty() }
    }
}

/// A host value that can be written into register slots.
pub trait ToWren: Sized {
    /// How many contiguous slots the value needs.
    spec fn width(&self) -> int;

    /// Whether the value's handle references are valid against the handle
    /// table.
    spec fn args_ok(&self, handles: Seq<HandleEntry>) -> bool;

    /// What the written slots hold, given the handle table before the
    /// write.
    spec fn put_post(&self, handles: Seq<HandleEntry>, vals: Seq<SlotValue>) -> bool;

    /// Every encodable value occupies at least one slot.
    proof fn lemma_width_pos(&self)
        ensures
            self.width() >= 1,
    ;

    /// How many contiguous slots the value needs; at least one.
    fn size_hint(&self) -> (n: usize)
        requires
            self.width() <= usize::MAX as int,
        ensures
            n as int == self.width(),
            n >= 1,
    ;

    /// Move the value into the slots starting at `slot`, which the caller
    /// has ensured exist.
    fn put(self, ctx: &mut WrenContext, slot: usize)
        requires
            old(ctx).wf(),
            self.args_ok(old(ctx).handles@),
            slot + self.width() <= old(ctx).slots@.len(),
        ensures
            final(ctx).wf(),
            put_frame(*old(ctx), *final(ctx)),
            final(ctx).slots@.len() == old(ctx).slots@.len(),
            forall|i: int|
                0 <= i < old(ctx).slots@.len() && !(slot <= i < slot + self.width())
                    ==> final(ctx).slots@[i] == old(ctx).slots@[i],
            self.put_post(
                old(ctx).handles@,
                final(ctx).slots@.subrange(slot as int, slot as int + self.width()),
            ),
    ;
}

/// A host value that can be read out of a register slot.
pub trait FromWren: Sized {
    /// The dynamic type a failed read names as expected.
    spec fn expected_type() -> WrenType;

    /// The slot values this type reads successfully.
    spec fn accepts(v: SlotValue) -> bool;

    /// How the value read relates to the slot's contents and the handle
    /// table before and after the read.
    spec fn extract(
        pre_handles: Seq<HandleEntry>,
        post_handles: Seq<HandleEntry>,
        v: SlotValue,
        out: Self,
    ) -> bool;

    /// Read the value in the given slot.
    ///
    /// Fails, never panics, when the slot index is negative or at least
    /// the slot count, or when the slot's dynamic type does not match.
    fn get_slot(ctx: &mut WrenContext, slot: i32) -> (r: Result<Self, WrenError>)
        requires
            old(ctx).wf(),
        ensures
            final(ctx).wf(),
            get_frame(*old(ctx), *final(ctx)),
            (r is Ok) == (0 <= slot && (slot as int) < old(ctx).slots@.len() && Self::accepts(
                old(ctx).slots@[slot as int],
            )),
            r matches Ok(out) ==> Self::extract(
                old(ctx).handles@,
                final(ctx).handles@,
                old(ctx).slots@[slot as int],
                out,
            ),
            r matches Err(e) ==> final(ctx).handles == old(ctx).handles && e == slot_error(
                *old(ctx),
                slot,
                Self::expected_type(),
            ),
    ;
}

/// The value `out` is a possible reading of slot value `v`, for some
/// handle-table evolution.
pub open spec fn extracts<T: FromWren>(v: SlotValue, out: T) -> bool {
    exists|ph1: Seq<HandleEntry>, ph2: Seq<HandleEntry>| T::extract(ph1, ph2, v, out)
}

/// Shared bounds-and-type gate of the primitive readers: the slot's value
/// when it is in bounds and of the wanted type, the exact error
/// otherwise.
fn check_slot(ctx: &WrenContext, slot: i32, expected: WrenType) -> (r: Result<&SlotValue, WrenError>)
    ensures
        (r is Ok) == (0 <= slot && (slot as int) < ctx.slots@.len() && ctx.slots@[slot as int].ty()
            == expected),
        r matches Ok(v) ==> *v == ctx.slots@[slot as int],
        r matches Err(e) ==> e == slot_error(*ctx, slot, expected),
{
    if slot < 0 {
        return Err(WrenError::SlotOutOfBounds(slot));
    }
    let idx = slot as usize;
    if idx >= ctx.slots.len() {
        return Err(WrenError::SlotOutOfBounds(slot));
    }
    let actual = ctx.slots[idx].slot_type();
    if actual != expected {
        return Err(WrenError::SlotType { expected, actual });
    }
    Ok(&ctx.slots[idx])
}

impl ToWren for bool {
    open spec fn width(&self) -> int {
        1
    }

    open spec fn args_ok(&self, handles: Seq<HandleEntry>) -> bool {
        true
    }

    open spec fn put_post(&self, handles: Seq<HandleEntry>, vals: Seq<SlotValue>) -> bool {
        vals =~= seq![SlotValue::Bool(*self)]
    }

    proof fn lemma_width_pos(&self) {
    }

    fn size_hint(&self) -> usize {
        1
    }

    fn put(self, ctx: &mut WrenContext, slot: usize) {
        ctx.write_slot(slot, SlotValue::Bool(self));
        proof {
            assert(ctx.slots@.subrange(slot as int, slot as int + 1) =~= seq![
                SlotValue::Bool(self),
            ]);
        }
    }
}

impl FromWren for bool {
    open spec fn expected_type() -> WrenType {
        WrenType::Bool
    }

    open spec fn accepts(v: SlotValue) -> bool {
        v is Bool
    }

    open spec fn extract(
        pre_handles: Seq<HandleEntry>,
        post_handles: Seq<HandleEntry>,
        v: SlotValue,
        out: Self,
    ) -> bool {
        post_handles == pre_handles && v == SlotValue::Bool(out)
    }

    fn get_slot(ctx: &mut WrenContext, slot: i32) -> (r: Result<Self, WrenError>) {
        match check_slot(ctx, slot, WrenType::Bool) {
            Err(e) => Err(e),
            Ok(v) => match v {
                SlotValue::Bool(b) => Ok(*b),
                // Unreachable: the dynamic type was checked above.
                _ => {
                    proof {
                        assert(false);
                    }
                    Err(WrenError::ForeignType)
                },
            },
        }
    }
}

impl ToWren for () {
    open spec fn width(&self) -> int {
        1
    }

    open spec fn args_ok(&self, handles: Seq<HandleEntry>) -> bool {
        true
    }

    open spec fn put_post(&self, handles: Seq<HandleEntry>, vals: Seq<SlotValue>) -> bool {
        vals =~= seq![SlotValue::Null]
    }

    proof fn lemma_width_pos(&self) {
    }

    fn size_hint(&self) -> usize {
        1
    }

    fn put(self, ctx: &mut WrenContext, slot: usize) {
        ctx.write_slot(slot, SlotValue::Null);
        proof {
            assert(ctx.slots@.subrange(slot as int, slot as int + 1) =~= seq![SlotValue::Null]);
        }
    }
}

impl FromWren for () {
    open spec fn expected_type() -> WrenType {
        WrenType::Null
    }

    open spec fn accepts(v: SlotValue) -> bool {
        true
    }

    open spec fn extract(
        pre_handles: Seq<HandleEntry>,
        post_handles: Seq<HandleEntry>,
        v: SlotValue,
        out: Self,
    ) -> bool {
        post_handles == pre_handles
    }

    fn get_slot(ctx: &mut WrenContext, slot: i32) -> (r: Result<Self, WrenError>) {
        if slot < 0 {
            return Err(WrenError::SlotOutOfBounds(slot));
        }
        let idx = slot as usize;
        if idx >= ctx.slots.len() {
            return Err(WrenError::SlotOutOfBounds(slot));
        }
        Ok(())
    }
}

impl ToWren for String {
    open spec fn width(&self) -> int {
        1
    }

    open spec fn args_ok(&self, handles: Seq<HandleEntry>) -> bool {
        true
    }

    open spec fn put_post(&self, handles: Seq<HandleEntry>, vals: Seq<SlotValue>) -> bool {
        vals.len() == 1 && (vals[0] matches SlotValue::Str(s) && s@ == self@)
    }

    proof fn lemma_width_pos(&self) {
    }

    fn size_hint(&self) -> usize {
        1
    }

    fn put(self, ctx: &mut WrenContext, slot: usize) {
        let ghost text = self@;
        ctx.write_slot(slot, SlotValue::Str(self));
        proof {
            assert(ctx.slots@.subrange(slot as int, slot as int + 1).len() == 1);
            assert(ctx.slots@.subrange(slot as int, slot as int + 1)[0] == ctx.slots@[slot as int]);
        }
    }
}

impl<'a> ToWren for &'a str {
    open spec fn width(&self) -> int {
        1
    }

    open spec fn args_ok(&self, handles: Seq<HandleEntry>) -> bool {
        true
    }

    open spec fn put_post(&self, handles: Seq<HandleEntry>, vals: Seq<SlotValue>) -> bool {
        vals.len() == 1 && (vals[0] matches SlotValue::Str(s) && s@ == self@)
    }

    proof fn lemma_width_pos(&self) {
    }

    fn size_hint(&self) -> usize {
        1
    }

    fn put(self, ctx: &mut WrenContext, slot: usize) {
        ctx.write_slot(slot, SlotValue::Str(String::from_str(self)));
        proof {
            assert(ctx.slots@.subrange(slot as int, slot as int + 1).len() == 1);
            assert(ctx.slots@.subrange(slot as int, slot as int + 1)[0] == ctx.slots@[slot as int]);
        }
    }
}

impl FromWren for String {
    open spec fn expected_type() -> WrenType {
        WrenType::String
    }

    open spec fn accepts(v: SlotValue) -> bool {
        v is Str
    }

    open spec fn extract(
        pre_handles: Seq<HandleEntry>,
        post_handles: Seq<HandleEntry>,
        v: SlotValue,
        out: Self,
    ) -> bool {
        post_handles == pre_handles && (v matches SlotValue::Str(s) && out == s)
    }

    fn get_slot(ctx: &mut WrenContext, slot: i32) -> (r: Result<Self, WrenError>) {
        match check_slot(ctx, slot, WrenType::String) {
            Err(e) => Err(e),
            Ok(v) => match v {
                SlotValue::Str(s) => Ok(s.clone()),
                // Unreachable: the dynamic type was checked above.
                _ => {
                    proof {
                        assert(false);
                    }
                    Err(WrenError::ForeignType)
                },
            },
        }
    }
}



impl ToWren for i8 {
    open spec fn width(&self) -> int {
        1
    }

    open spec fn args_ok(&self, handles: Seq<HandleEntry>) -> bool {
        true
    }

    open spec fn put_post(&self, handles: Seq<HandleEntry>, vals: Seq<SlotValue>) -> bool {
        vals =~= seq![SlotValue::Num(*self as i64)]
    }

    proof fn lemma_width_pos(&self) {
    }

    fn size_hint(&self) -> usize {
        1
    }

    fn put(self, ctx: &mut WrenContext, slot: usize) {
        ctx.write_slot(slot, SlotValue::Num(self as i64));
        proof {
            assert(ctx.slots@.subrange(slot as int, slot as int + 1) =~= seq![
                SlotValue::Num(self as i64),
            ]);
        }
    }
}

impl FromWren for i8 {
    open spec fn expected_type() -> WrenType {
        WrenType::Number
    }

    open spec fn accepts(v: SlotValue) -> bool {
        v is Num
    }

    open spec fn extract(
        pre_handles: Seq<HandleEntry>,
        post_handles: Seq<HandleEntry>,
        v: SlotValue,
        out: Self,
    ) -> bool {
        post_handles == pre_handles && (v matches SlotValue::Num(n) && out == n as i8)
    }

    fn get_slot(ctx: &mut WrenContext, slot: i32) -> (r: Result<Self, WrenError>) {
        match check_slot(ctx, slot, WrenType::Number) {
            Err(e) => Err(e),
            Ok(v) => match v {
                SlotValue::Num(n) => Ok(#[verifier::truncate] (*n as i8)),
                // Unreachable: the dynamic type was checked above.
                _ => {
                    proof {
                        assert(false);
                    }
                    Err(WrenError::ForeignType)
                },
            },
        }
    }
}

impl ToWren for i16 {
    open spec fn width(&self) -> int {
        1
    }

    open spec fn args_ok(&self, handles: Seq<HandleEntry>) -> bool {
        true
    }

    open spec fn put_post(&self, handles: Seq<HandleEntry>, vals: Seq<SlotValue>) -> bool {
        vals =~= seq![SlotValue::Num(*self as i64)]
    }

    proof fn lemma_width_pos(&self) {
    }

    fn size_hint(&self) -> usize {
        1
    }

    fn put(self, ctx: &mut WrenContext, slot: usize) {
        ctx.write_slot(slot, SlotValue::Num(self as i64));
        proof {
            assert(ctx.slots@.subrange(slot as int, slot as int + 1) =~= seq![
                SlotValue::Num(self as i64),
            ]);
        }
    }
}

impl FromWren for i16 {
    open spec fn expected_type() -> WrenType {
        WrenType::Number
    }

    open spec fn accepts(v: SlotValue) -> bool {
        v is Num
    }

    open spec fn extract(
        pre_handles: Seq<HandleEntry>,
        post_handles: Seq<HandleEntry>,
        v: SlotValue,
        out: Self,
    ) -> bool {
        post_handles == pre_handles && (v matches SlotValue::Num(n) && out == n as i16)
    }

    fn get_slot(ctx: &mut WrenContext, slot: i32) -> (r: Result<Self, WrenError>) {
        match check_slot(ctx, slot, WrenType::Number) {
            Err(e) => Err(e),
            Ok(v) => match v {
                SlotValue::Num(n) => Ok(#[verifier::truncate] (*n as i16)),
                // Unreachable: the dynamic type was checked above.
                _ => {
                    proof {
                        assert(false);
                    }
                    Err(WrenError::ForeignType)
                },
            },
        }
    }
}

impl ToWren for i32 {
    open spec fn width(&self) -> int {
        1
    }

    open spec fn args_ok(&self, handles: Seq<HandleEntry>) -> bool {
        true
    }

    open spec fn put_post(&self, handles: Seq<HandleEntry>, vals: Seq<SlotValue>) -> bool {
        vals =~= seq![SlotValue::Num(*self as i64)]
    }

    proof fn lemma_width_pos(&self) {
    }

    fn size_hint(&self) -> usize {
        1
    }

    fn put(self, ctx: &mut WrenContext, slot: usize) {
        ctx.write_slot(slot, SlotValue::Num(self as i64));
        proof {
            assert(ctx.slots@.subrange(slot as int, slot as int + 1) =~= seq![
                SlotValue::Num(self as i64),
            ]);
        }
    }
}

impl FromWren for i32 {
    open spec fn expected_type() -> WrenType {
        WrenType::Number
    }

    open spec fn accepts(v: SlotValue) -> bool {
        v is Num
    }

    open spec fn extract(
        pre_handles: Seq<HandleEntry>,
        post_handles: Seq<HandleEntry>,
        v: SlotValue,
        out: Self,
    ) -> bool {
        post_handles == pre_handles && (v matches SlotValue::Num(n) && out == n as i32)
    }

    fn get_slot(ctx: &mut WrenContext, slot: i32) -> (r: Result<Self, WrenError>) {
        match check_slot(ctx, slot, WrenType::Number) {
            Err(e) => Err(e),
            Ok(v) => match v {
                SlotValue::Num(n) => Ok(#[verifier::truncate] (*n as i32)),
                // Unreachable: the dynamic type was checked above.
                _ => {
                    proof {
                        assert(false);
                    }
                    Err(WrenError::ForeignType)
                },
            },
        }
    }
}

impl ToWren for i64 {
    open spec fn width(&self) -> int {
        1
    }

    open spec fn args_ok(&self, handles: Seq<HandleEntry>) -> bool {
        true
    }

    open spec fn put_post(&self, handles: Seq<HandleEntry>, vals: Seq<SlotValue>) -> bool {
        vals =~= seq![SlotValue::Num(*self as i64)]
    }

    proof fn lemma_width_pos(&self) {
    }

    fn size_hint(&self) -> usize {
        1
    }

    fn put(self, ctx: &mut WrenContext, slot: usize) {
        ctx.write_slot(slot, SlotValue::Num(self as i64));
        proof {
            assert(ctx.slots@.subrange(slot as int, slot as int + 1) =~= seq![
                SlotValue::Num(self as i64),
            ]);
        }
    }
}

impl FromWren for i64 {
    open spec fn expected_type() -> WrenType {
        WrenType::Number
    }

    open spec fn accepts(v: SlotValue) -> bool {
        v is Num
    }

    open spec fn extract(
        pre_handles: Seq<HandleEntry>,
        post_handles: Seq<HandleEntry>,
        v: SlotValue,
        out: Self,
    ) -> bool {
        post_handles == pre_handles && (v matches SlotValue::Num(n) && out == n as i64)
    }

    fn get_slot(ctx: &mut WrenContext, slot: i32) -> (r: Result<Self, WrenError>) {
        match check_slot(ctx, slot, WrenType::Number) {
            Err(e) => Err(e),
            Ok(v) => match v {
                SlotValue::Num(n) => Ok(*n),
                // Unreachable: the dynamic type was checked above.
                _ => {
                    proof {
                        assert(false);
                    }
                    Err(WrenError::ForeignType)
                },
            },
        }
    }
}

impl ToWren for u8 {
    open spec fn width(&self) -> int {
        1
    }

    open spec fn args_ok(&self, handles: Seq<HandleEntry>) -> bool {
        true
    }

    open spec fn put_post(&self, handles: Seq<HandleEntry>, vals: Seq<SlotValue>) -> bool {
        vals =~= seq![SlotValue::Num(*self as i64)]
    }

    proof fn lemma_width_pos(&self) {
    }

    fn size_hint(&self) -> usize {
        1
    }

    fn put(self, ctx: &mut WrenContext, slot: usize) {
        ctx.write_slot(slot, SlotValue::Num(self as i64));
        proof {
            assert(ctx.slots@.subrange(slot as int, slot as int + 1) =~= seq![
                SlotValue::Num(self as i64),
            ]);
        }
    }
}

impl FromWren for u8 {
    open spec fn expected_type() -> WrenType {
        WrenType::Number
    }

    open spec fn accepts(v: SlotValue) -> bool {
        v is Num
    }

    open spec fn extract(
        pre_handles: Seq<HandleEntry>,
        post_handles: Seq<HandleEntry>,
        v: SlotValue,
        out: Self,
    ) -> bool {
        post_handles == pre_handles && (v matches SlotValue::Num(n) && out == n as u8)
    }

    fn get_slot(ctx: &mut WrenContext, slot: i32) -> (r: Result<Self, WrenError>) {
        match check_slot(ctx, slot, WrenType::Number) {
            Err(e) => Err(e),
            Ok(v) => match v {
                SlotValue::Num(n) => Ok(#[verifier::truncate] (*n as u8)),
                // Unreachable: the dynamic type was checked above.
                _ => {
                    proof {
                        assert(false);
                    }
                    Err(WrenError::ForeignType)
                },
            },
        }
    }
}

impl ToWren for u16 {
    open spec fn width(&self) -> int {
        1
    }

    open spec fn args_ok(&self, handles: Seq<HandleEntry>) -> bool {
        true
    }

    open spec fn put_post(&self, handles: Seq<HandleEntry>, vals: Seq<SlotValue>) -> bool {
        vals =~= seq![SlotValue::Num(*self as i64)]
    }

    proof fn lemma_width_pos(&self) {
    }

    fn size_hint(&self) -> usize {
        1
    }

    fn put(self, ctx: &mut WrenContext, slot: usize) {
        ctx.write_slot(slot, SlotValue::Num(self as i64));
        proof {
            assert(ctx.slots@.subrange(slot as int, slot as int + 1) =~= seq![
                SlotValue::Num(self as i64),
            ]);
        }
    }
}

impl FromWren for u16 {
    open spec fn expected_type() -> WrenType {
        WrenType::Number
    }

    open spec fn accepts(v: SlotValue) -> bool {
        v is Num
    }

    open spec fn extract(
        pre_handles: Seq<HandleEntry>,
        post_handles: Seq<HandleEntry>,
        v: SlotValue,
        out: Self,
    ) -> bool {
        post_handles == pre_handles && (v matches SlotValue::Num(n) && out == n as u16)
    }

    fn get_slot(ctx: &mut WrenContext, slot: i32) -> (r: Result<Self, WrenError>) {
        match check_slot(ctx, slot, WrenType::Number) {
            Err(e) => Err(e),
            Ok(v) => match v {
                SlotValue::Num(n) => Ok(#[verifier::truncate] (*n as u16)),
                // Unreachable: the dynamic type was checked above.
                _ => {
                    proof {
                        assert(false);
                    }
                    Err(WrenError::ForeignType)
                },
            },
        }
    }
}

impl ToWren for u32 {
    open spec fn width(&self) -> int {
        1
    }

    open spec fn args_ok(&self, handles: Seq<HandleEntry>) -> bool {
        true
    }

    open spec fn put_post(&self, handles: Seq<HandleEntry>, vals: Seq<SlotValue>) -> bool {
        vals =~= seq![SlotValue::Num(*self as i64)]
    }

    proof fn lemma_width_pos(&self) {
    }

    fn size_hint(&self) -> usize {
        1
    }

    fn put(self, ctx: &mut WrenContext, slot: usize) {
        ctx.write_slot(slot, SlotValue::Num(self as i64));
        proof {
            assert(ctx.slots@.subrange(slot as int, slot as int + 1) =~= seq![
                SlotValue::Num(self as i64),
            ]);
        }
    }
}

impl FromWren for u32 {
    open spec fn expected_type() -> WrenType {
        WrenType::Number
    }

    open spec fn accepts(v: SlotValue) -> bool {
        v is Num
    }

    open spec fn extract(
        pre_handles: Seq<HandleEntry>,
        post_handles: Seq<HandleEntry>,
        v: SlotValue,
        out: Self,
    ) -> bool {
        post_handles == pre_handles && (v matches SlotValue::Num(n) && out == n as u32)
    }

    fn get_slot(ctx: &mut WrenContext, slot: i32) -> (r: Result<Self, WrenError>) {
        match check_slot(ctx, slot, WrenType::Number) {
            Err(e) => Err(e),
            Ok(v) => match v {
                SlotValue::Num(n) => Ok(#[verifier::truncate] (*n as u32)),
                // Unreachable: the dynamic type was checked above.
                _ => {
                    proof {
                        assert(false);
                    }
                    Err(WrenError::ForeignType)
                },
            },
        }
    }
}

impl ToWren for u64 {
    open spec fn width(&self) -> int {
        1
    }

    open spec fn args_ok(&self, handles: Seq<HandleEntry>) -> bool {
        true
    }

    open spec fn put_post(&self, handles: Seq<HandleEntry>, vals: Seq<SlotValue>) -> bool {
        vals =~= seq![SlotValue::Num(*self as i64)]
    }

    proof fn lemma_width_pos(&self) {
    }

    fn size_hint(&self) -> usize {
        1
    }

    fn put(self, ctx: &mut WrenContext, slot: usize) {
        ctx.write_slot(slot, SlotValue::Num(#[verifier::truncate] (self as i64)));
        proof {
            assert(ctx.slots@.subrange(slot as int, slot as int + 1) =~= seq![
                SlotValue::Num(self as i64),
            ]);
        }
    }
}

impl FromWren for u64 {
    open spec fn expected_type() -> WrenType {
        WrenType::Number
    }

    open spec fn accepts(v: SlotValue) -> bool {
        v is Num
    }

    open spec fn extract(
        pre_handles: Seq<HandleEntry>,
        post_handles: Seq<HandleEntry>,
        v: SlotValue,
        out: Self,
    ) -> bool {
        post_handles == pre_handles && (v matches SlotValue::Num(n) && out == n as u64)
    }

    fn get_slot(ctx: &mut WrenContext, slot: i32) -> (r: Result<Self, WrenError>) {
        match check_slot(ctx, slot, WrenType::Number) {
            Err(e) => Err(e),
            Ok(v) => match v {
                SlotValue::Num(n) => Ok(#[verifier::truncate] (*n as u64)),
                // Unreachable: the dynamic type was checked above.
                _ => {
                    proof {
                        assert(false);
                    }
                    Err(WrenError::ForeignType)
                },
            },
        }
    }
}

impl<T: ToWren> ToWren for Option<T> {
    open spec fn width(&self) -> int {
        match self {
            Some(inner) => inner.width(),
            None => 1,
        }
    }

    open spec fn args_ok(&self, handles: Seq<HandleEntry>) -> bool {
        match self {
            Some(inner) => inner.args_ok(handles),
            None => true,
        }
    }

    open spec fn put_post(&self, handles: Seq<HandleEntry>, vals: Seq<SlotValue>) -> bool {
        match self {
            Some(inner) => inner.put_post(handles, vals),
            None => vals =~= seq![SlotValue::Null],
        }
    }

    proof fn lemma_width_pos(&self) {
        match self {
            Some(inner) => inner.lemma_width_pos(),
            None => {},
        }
    }

    fn size_hint(&self) -> usize {
        match self {
            Some(inner) => inner.size_hint(),
            None => 1,
        }
    }

    fn put(self, ctx: &mut WrenContext, slot: usize) {
        match self {
            Some(inner) => inner.put(ctx, slot),
            None => {
                ctx.write_slot(slot, SlotValue::Null);
                proof {
                    assert(ctx.slots@.subrange(slot as int, slot as int + 1) =~= seq![
                        SlotValue::Null,
                    ]);
                }
            },
        }
    }
}

impl<T: FromWren> FromWren for Option<T> {
    open spec fn expected_type() -> WrenType {
        T::expected_type()
    }

    open spec fn accepts(v: SlotValue) -> bool {
        v is Null || T::accepts(v)
    }

    open spec fn extract(
        pre_handles: Seq<HandleEntry>,
        post_handles: Seq<HandleEntry>,
        v: SlotValue,
        out: Self,
    ) -> bool {
        if v is Null {
            post_handles == pre_handles && out is None
        } else {
            out matches Some(inner) && T::extract(pre_handles, post_handles, v, inner)
        }
    }

    fn get_slot(ctx: &mut WrenContext, slot: i32) -> (r: Result<Self, WrenError>) {
        if slot < 0 {
            return Err(WrenError::SlotOutOfBounds(slot));
        }
        let idx = slot as usize;
        if idx >= ctx.slots.len() {
            return Err(WrenError::SlotOutOfBounds(slot));
        }
        match ctx.slots[idx].slot_type() {
            WrenType::Null => Ok(None),
            _ => match T::get_slot(ctx, slot) {
                Ok(inner) => Ok(Some(inner)),
                Err(e) => Err(e),
            },
        }
    }
}


/// A pair of encodable values occupies their slots back to back.
///
/// Wider argument lists are written by nesting: because a tuple's
/// elements land in consecutive slots, `((a, b), (c, d))` occupies four
/// consecutive slots exactly as a flat four-tuple would, so any arity
/// the interpreter accepts can be spelled with pairs and triples.
impl<A: ToWren, B: ToWren> ToWren for (A, B) {
    open spec fn width(&self) -> int {
        self.0.width() + self.1.width()
    }

    open spec fn args_ok(&self, handles: Seq<HandleEntry>) -> bool {
        self.0.args_ok(handles) && self.1.args_ok(handles)
    }

    open spec fn put_post(&self, handles: Seq<HandleEntry>, vals: Seq<SlotValue>) -> bool {
        &&& vals.len() == self.0.width() + self.1.width()
        &&& self.0.put_post(handles, vals.subrange(0, self.0.width()))
        &&& self.1.put_post(
            handles,
            vals.subrange(self.0.width(), self.0.width() + self.1.width()),
        )
    }

    proof fn lemma_width_pos(&self) {
        self.0.lemma_width_pos();
        self.1.lemma_width_pos();
    }

    fn size_hint(&self) -> usize {
        proof {
            self.0.lemma_width_pos();
            self.1.lemma_width_pos();
        }
        self.0.size_hint() + self.1.size_hint()
    }

    fn put(self, ctx: &mut WrenContext, slot: usize) {
        // Reading the length brings its usize bound into scope for the
        // component width arithmetic below.
        let _cap = ctx.slots.len();
        proof {
            self.0.lemma_width_pos();
            self.1.lemma_width_pos();
        }
        let (a, b) = self;
        let na = a.size_hint();
        let nb = b.size_hint();
        a.put(ctx, slot);
        let ghost mid = ctx.slots@;
        b.put(ctx, slot + na);
        proof {
            assert(ctx.slots@.subrange(slot as int, slot as int + na) =~= mid.subrange(
                slot as int,
                slot as int + na,
            ));
            let vals = ctx.slots@.subrange(slot as int, slot as int + na + nb);
            assert(vals.subrange(0, na as int) =~= ctx.slots@.subrange(
                slot as int,
                slot as int + na,
            ));
            assert(vals.subrange(na as int, na as int + nb as int) =~= ctx.slots@.subrange(
                slot as int + na,
                slot as int + na + nb,
            ));
        }
    }
}

/// Three encodable values, back to back; see the pair for how wider
/// argument lists nest.
impl<A: ToWren, B: ToWren, C: ToWren> ToWren for (A, B, C) {
    open spec fn width(&self) -> int {
        self.0.width() + self.1.width() + self.2.width()
    }

    open spec fn args_ok(&self, handles: Seq<HandleEntry>) -> bool {
        self.0.args_ok(handles) && self.1.args_ok(handles) && self.2.args_ok(handles)
    }

    open spec fn put_post(&self, handles: Seq<HandleEntry>, vals: Seq<SlotValue>) -> bool {
        &&& vals.len() == self.0.width() + self.1.width() + self.2.width()
        &&& self.0.put_post(handles, vals.subrange(0, self.0.width()))
        &&& self.1.put_post(
            handles,
            vals.subrange(self.0.width(), self.0.width() + self.1.width()),
        )
        &&& self.2.put_post(
            handles,
            vals.subrange(
                self.0.width() + self.1.width(),
                self.0.width() + self.1.width() + self.2.width(),
            ),
        )
    }

    proof fn lemma_width_pos(&self) {
        self.0.lemma_width_pos();
        self.1.lemma_width_pos();
        self.2.lemma_width_pos();
    }

    fn size_hint(&self) -> usize {
        proof {
            self.0.lemma_width_pos();
            self.1.lemma_width_pos();
            self.2.lemma_width_pos();
        }
        self.0.size_hint() + self.1.size_hint() + self.2.size_hint()
    }

    fn put(self, ctx: &mut WrenContext, slot: usize) {
        // Reading the length brings its usize bound into scope for the
        // component width arithmetic below.
        let _cap = ctx.slots.len();
        proof {
            self.0.lemma_width_pos();
            self.1.lemma_width_pos();
            self.2.lemma_width_pos();
        }
        let (a, b, c) = self;
        let na = a.size_hint();
        let nb = b.size_hint();
        let nc = c.size_hint();
        a.put(ctx, slot);
        let ghost mid_a = ctx.slots@;
        b.put(ctx, slot + na);
        let ghost mid_b = ctx.slots@;
        c.put(ctx, slot + na + nb);
        proof {
            assert(ctx.slots@.subrange(slot as int, slot as int + na) =~= mid_a.subrange(
                slot as int,
                slot as int + na,
            ));
            assert(ctx.slots@.subrange(slot as int + na, slot as int + na + nb) =~= mid_b.subrange(
                slot as int + na,
                slot as int + na + nb,
            ));
            let vals = ctx.slots@.subrange(slot as int, slot as int + na + nb + nc);
            assert(vals.subrange(0, na as int) =~= ctx.slots@.subrange(
                slot as int,
                slot as int + na,
            ));
            assert(vals.subrange(na as int, na as int + nb as int) =~= ctx.slots@.subrange(
                slot as int + na,
                slot as int + na + nb,
            ));
            assert(vals.subrange(
                na as int + nb as int,
                na as int + nb as int + nc as int,
            ) =~= ctx.slots@.subrange(slot as int + na + nb, slot as int + na + nb + nc));
        }
    }
}

impl WrenContext {
    /// Read a host value out of the given slot.
    pub fn get_slot<T: FromWren>(&mut self, index: i32) -> (r: Result<T, WrenError>)
        requires
            old(self).wf(),
        ensures
            final(self).wf(),
            get_frame(*old(self), *final(self)),
            (r is Ok) == (0 <= index && (index as int) < old(self).slots@.len() && T::accepts(
                old(self).slots@[index as int],
            )),
            r matches Ok(out) ==> T::extract(
                old(self).handles@,
                final(self).handles@,
                old(self).slots@[index as int],
                out,
            ),
            r matches Err(e) ==> final(self).handles == old(self).handles && e == slot_error(
                *old(self),
                index,
                T::expected_type(),
            ),
    {
        T::get_slot(self, index)
    }
}

/// Writing a host value and reading it back yields the value again: the
/// round trip laws of the codec, one per convertible type, stated over
/// the write relation `put_post` and the read relation `extract` that the
/// contracts of `put` and `get_slot` are given in. Optionals share the
/// element laws: writing `None` leaves null, which any optional reads
/// back as `None`, and a present value round-trips by its element's law.
pub proof fn lemma_round_trip_bool(v: bool, handles: Seq<HandleEntry>, vals: Seq<SlotValue>)
    requires
        v.put_post(handles, vals),
    ensures
        vals.len() == 1,
        <bool as FromWren>::accepts(vals[0]),
        <bool as FromWren>::extract(handles, handles, vals[0], v),
        forall|out: bool| <bool as FromWren>::extract(handles, handles, vals[0], out) ==> out == v,
{
}

/// Round trip for `i8`: the slot value written for a host value reads
/// back as exactly that value.
pub proof fn lemma_round_trip_i8(v: i8, handles: Seq<HandleEntry>, vals: Seq<SlotValue>)
    requires
        v.put_post(handles, vals),
    ensures
        vals.len() == 1,
        <i8 as FromWren>::accepts(vals[0]),
        <i8 as FromWren>::extract(handles, handles, vals[0], v),
        forall|out: i8| <i8 as FromWren>::extract(handles, handles, vals[0], out) ==> out == v,
{
    assert(((v as i64) as i8) == v) by (bit_vector);
}

/// Round trip for `i16`: the slot value written for a host value reads
/// back as exactly that value.
pub proof fn lemma_round_trip_i16(v: i16, handles: Seq<HandleEntry>, vals: Seq<SlotValue>)
    requires
        v.put_post(handles, vals),
    ensures
        vals.len() == 1,
        <i16 as FromWren>::accepts(vals[0]),
        <i16 as FromWren>::extract(handles, handles, vals[0], v),
        forall|out: i16| <i16 as FromWren>::extract(handles, handles, vals[0], out) ==> out == v,
{
    assert(((v as i64) as i16) == v) by (bit_vector);
}

/// Round trip for `i32`: the slot value written for a host value reads
/// back as exactly that value.
pub proof fn lemma_round_trip_i32(v: i32, handles: Seq<HandleEntry>, vals: Seq<SlotValue>)
    requires
        v.put_post(handles, vals),
    ensures
        vals.len() == 1,
        <i32 as FromWren>::accepts(vals[0]),
        <i32 as FromWren>::extract(handles, handles, vals[0], v),
        forall|out: i32| <i32 as FromWren>::extract(handles, handles, vals[0], out) ==> out == v,
{
    assert(((v as i64) as i32) == v) by (bit_vector);
}

/// Round trip for `i64`: the slot value written for a host value reads
/// back as exactly that value.
pub proof fn lemma_round_trip_i64(v: i64, handles: Seq<HandleEntry>, vals: Seq<SlotValue>)
    requires
        v.put_post(handles, vals),
    ensures
        vals.len() == 1,
        <i64 as FromWren>::accepts(vals[0]),
        <i64 as FromWren>::extract(handles, handles, vals[0], v),
        forall|out: i64| <i64 as FromWren>::extract(handles, handles, vals[0], out) ==> out == v,
{
}

/// Round trip for `u8`: the slot value written for a host value reads
/// back as exactly that value.
pub proof fn lemma_round_trip_u8(v: u8, handles: Seq<HandleEntry>, vals: Seq<SlotValue>)
    requires
        v.put_post(handles, vals),
    ensures
        vals.len() == 1,
        <u8 as FromWren>::accepts(vals[0]),
        <u8 as FromWren>::extract(handles, handles, vals[0], v),
        forall|out: u8| <u8 as FromWren>::extract(handles, handles, vals[0], out) ==> out == v,
{
    assert(((v as i64) as u8) == v) by (bit_vector);
}

/// Round trip for `u16`: the slot value written for a host value reads
/// back as exactly that value.
pub proof fn lemma_round_trip_u16(v: u16, handles: Seq<HandleEntry>, vals: Seq<SlotValue>)
    requires
        v.put_post(handles, vals),
    ensures
        vals.len() == 1,
        <u16 as FromWren>::accepts(vals[0]),
        <u16 as FromWren>::extract(handles, handles, vals[0], v),
        forall|out: u16| <u16 as FromWren>::extract(handles, handles, vals[0], out) ==> out == v,
{
    assert(((v as i64) as u16) == v) by (bit_vector);
}

/// Round trip for `u32`: the slot value written for a host value reads
/// back as exactly that value.
pub proof fn lemma_round_trip_u32(v: u32, handles: Seq<HandleEntry>, vals: Seq<SlotValue>)
    requires
        v.put_post(handles, vals),
    ensures
        vals.len() == 1,
        <u32 as FromWren>::accepts(vals[0]),
        <u32 as FromWren>::extract(handles, handles, vals[0], v),
        forall|out: u32| <u32 as FromWren>::extract(handles, handles, vals[0], out) ==> out == v,
{
    assert(((v as i64) as u32) == v) by (bit_vector);
}

/// Round trip for `u64`: the slot value written for a host value reads
/// back as exactly that value.
pub proof fn lemma_round_trip_u64(v: u64, handles: Seq<HandleEntry>, vals: Seq<SlotValue>)
    requires
        v.put_post(handles, vals),
    ensures
        vals.len() == 1,
        <u64 as FromWren>::accepts(vals[0]),
        <u64 as FromWren>::extract(handles, handles, vals[0], v),
        forall|out: u64| <u64 as FromWren>::extract(handles, handles, vals[0], out) ==> out == v,
{
    assert(((v as i64) as u64) == v) by (bit_vector);
}

/// Round trip for strings: the slot value written for a string holds its
/// exact text, including any multi-byte characters, and any string read
/// back from it carries the same text.
pub proof fn lemma_round_trip_string(v: String, handles: Seq<HandleEntry>, vals: Seq<SlotValue>)
    requires
        v.put_post(handles, vals),
    ensures
        vals.len() == 1,
        <String as FromWren>::accepts(vals[0]),
        forall|out: String|
            <String as FromWren>::extract(handles, handles, vals[0], out) ==> out@ == v@,
{
}

/// Round trip for an absent optional: writing `None` leaves null, which
/// reads back as `None`.
pub proof fn lemma_round_trip_option_none(handles: Seq<HandleEntry>, vals: Seq<SlotValue>)
    requires
        None::<i64>.put_post(handles, vals),
    ensures
        vals.len() == 1,
        <Option<i64> as FromWren>::accepts(vals[0]),
        forall|out: Option<i64>|
            <Option<i64> as FromWren>::extract(handles, handles, vals[0], out) ==> out is None,
{
}

/// Round trip for a present optional number: it writes as its element
/// and reads back as `Some` of the same value.
pub proof fn lemma_round_trip_option_some(v: i64, handles: Seq<HandleEntry>, vals: Seq<SlotValue>)
    requires
        Some(v).put_post(handles, vals),
    ensures
        vals.len() == 1,
        <Option<i64> as FromWren>::accepts(vals[0]),
        forall|out: Option<i64>|
            <Option<i64> as FromWren>::extract(handles, handles, vals[0], out) ==> out == Some(v),
{
}

/// Write a bound host function's result.
///
/// A success value is encoded into the slots as usual; a failure aborts
/// the running fiber through [`ForeignError::put`], which is the only
/// path by which host-thrown errors re-enter host code as typed errors.
pub fn put_result<T: ToWren>(
    res: Result<T, crate::errors::ForeignError>,
    ctx: &mut WrenContext,
    slot: usize,
)
    requires
        old(ctx).wf(),
        match res {
            Ok(v) => v.args_ok(old(ctx).handles@) && slot + v.width() <= old(ctx).slots@.len(),
            Err(_) => slot < old(ctx).slots@.len(),
        },
    ensures
        final(ctx).wf(),
        final(ctx).slots@.len() == old(ctx).slots@.len(),
        match res {
            Ok(v) => {
                &&& v.put_post(
                    old(ctx).handles@,
                    final(ctx).slots@.subrange(slot as int, slot as int + v.width()),
                )
                &&& (forall|i: int|
                    0 <= i < old(ctx).slots@.len() && !(slot <= i < slot + v.width()) ==> final(ctx).slots@[i] == old(ctx).slots@[i])
                &&& final(ctx).user.errors == old(ctx).user.errors
                &&& final(ctx).handles == old(ctx).handles
            },
            Err(e) => {
                &&& (final(ctx).slots@[slot as int] matches SlotValue::Str(s) && s@
                    == e.inner_spec())
                &&& final(ctx).user.errors@.last() == crate::errors::WrenVmError::Foreign(e)
                &&& final(ctx).user.errors@.len() > old(ctx).user.errors@.len()
                &&& final(ctx).handles == old(ctx).handles
            },
        },
        final(ctx).lists == old(ctx).lists,
        final(ctx).cells == old(ctx).cells,
        final(ctx).modules == old(ctx).modules,
{
    match res {
        Ok(v) => v.put(ctx, slot),
        Err(e) => e.put(ctx, slot),
    }
}

} // verus!
