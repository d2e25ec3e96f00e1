//! Handles to lists living in the interpreter's heap.
//!
//! The interpreter itself does not bounds-check indexed list access; this
//! layer does, before every indexed operation, so an index past the end
//! is a defined outcome — an error or an empty result — and never
//! corruption.
use vstd::prelude::*;

use crate::errors::{WrenError, WrenResult};
use crate::handle::{DestructorSender, WrenHandle};
use crate::types::{SlotValue, WrenType};
use crate::value::{FromWren, ToWren};
use crate::vm::{find_module, lookup_var, HandleEntry, HandleTarget, WrenContext};

verus! {

/// Whether every element of a list converts to the host type.
pub open spec fn all_convertible<T: FromWren>(contents: Seq<SlotValue>) -> bool {
    forall|i: int| 0 <= i < contents.len() ==> T::accepts(#[trigger] contents[i])
}

/// The first element that does not convert; the length when all do.
pub open spec fn first_bad<T: FromWren>(contents: Seq<SlotValue>) -> int
    decreases contents.len(),
{
    if contents.len() == 0 {
        0
    } else if !T::accepts(contents[0]) {
        0
    } else {
        1 + first_bad::<T>(contents.drop_first())
    }
}

/// A prefix of convertible elements followed by an unconvertible one
/// pins down `first_bad`.
proof fn lemma_first_bad<T: FromWren>(contents: Seq<SlotValue>, i: int)
    requires
        0 <= i < contents.len(),
        forall|j: int| 0 <= j < i ==> T::accepts(#[trigger] contents[j]),
        !T::accepts(contents[i]),
    ensures
        first_bad::<T>(contents) == i,
    decreases contents.len(),
{
    if i > 0 {
        lemma_first_bad::<T>(contents.drop_first(), i - 1);
    }
}

/// Handle to a list in the interpreter's heap.
#[derive(Debug)]
pub struct WrenList {
    pub handle: WrenHandle,
}

impl WrenList {
    /// The handle is live and pins a list.
    pub open spec fn wf_in(self, ctx: WrenContext) -> bool {
        &&& self.handle.handle < ctx.handles@.len()
        &&& ctx.handles@[self.handle.handle as int].alive
        &&& (ctx.handles@[self.handle.handle as int].target matches HandleTarget::Value(
            SlotValue::List(id),
        ) && id < ctx.lists@.len())
    }

    /// The index of the list this handle pins.
    pub open spec fn list_id(self, ctx: WrenContext) -> int {
        match ctx.handles@[self.handle.handle as int].target {
            HandleTarget::Value(SlotValue::List(id)) => id as int,
            _ => arbitrary(),
        }
    }

    /// The elements of the list this handle pins.
    pub open spec fn contents(self, ctx: WrenContext) -> Seq<SlotValue> {
        ctx.lists@[self.list_id(ctx)]@
    }

    /// Create a new, empty list and pin it. The list is also placed in
    /// slot zero.
    pub fn new(ctx: &mut WrenContext) -> (r: Self)
        requires
            old(ctx).wf(),
        ensures
            final(ctx).wf(),
            r.wf_in(*final(ctx)),
            r.contents(*final(ctx)) == Seq::<SlotValue>::empty(),
            r.list_id(*final(ctx)) == old(ctx).lists@.len(),
            r.handle.handle == old(ctx).handles@.len(),
            final(ctx).lists@.len() == old(ctx).lists@.len() + 1,
            forall|l: int|
                0 <= l < old(ctx).lists@.len() ==> final(ctx).lists@[l] == old(ctx).lists@[l],
            final(ctx).handles@.len() == old(ctx).handles@.len() + 1,
            forall|i: int|
                0 <= i < old(ctx).handles@.len() ==> final(ctx).handles@[i] == old(ctx).handles@[i],
            final(ctx).slots@.len() >= 1,
            final(ctx).slots@[0] == SlotValue::List(old(ctx).lists@.len() as usize),
            final(ctx).cells == old(ctx).cells,
            final(ctx).modules == old(ctx).modules,
            final(ctx).user == old(ctx).user,
    {
        ctx.ensure_slots(1);
        let id = ctx.new_list();
        ctx.write_slot(0, SlotValue::List(id));
        let h = ctx.new_handle(HandleTarget::Value(SlotValue::List(id)));
        WrenList { handle: WrenHandle { handle: h, destructors: DestructorSender } }
    }

    /// Create a list holding the encodings of the given values, in order.
    ///
    /// Every value must encode into a single slot; each element of the
    /// new list is what writing the corresponding value would have left
    /// in that slot.
    #[verifier::loop_isolation(false)]
    pub fn from_vec<T: ToWren>(ctx: &mut WrenContext, data: Vec<T>) -> (r: WrenResult<Self>)
        requires
            old(ctx).wf(),
            forall|i: int|
                0 <= i < data@.len() ==> (#[trigger] data@[i]).width() == 1 && data@[i].args_ok(
                    old(ctx).handles@,
                ),
        ensures
            final(ctx).wf(),
            r matches Ok(l) && {
                &&& l.wf_in(*final(ctx))
                &&& l.contents(*final(ctx)).len() == data@.len()
                &&& (forall|i: int|
                    0 <= i < data@.len() ==> (#[trigger] data@[i]).put_post(
                        old(ctx).handles@,
                        seq![l.contents(*final(ctx))[i]],
                    ))
            },
            final(ctx).cells == old(ctx).cells,
            final(ctx).modules == old(ctx).modules,
            final(ctx).handles@.len() == old(ctx).handles@.len() + 1,
            forall|i: int|
                0 <= i < old(ctx).handles@.len() ==> final(ctx).handles@[i] == old(ctx).handles@[i],
    {
        let mut data = data;
        let ghost orig = data@;
        ctx.ensure_slots(2);
        let id = ctx.new_list();
        let ghost handles0 = ctx.handles@;
        let ghost lists_len0 = ctx.lists@.len();
        let mut k: usize = 0;
        let n = data.len();
        while data.len() > 0
            invariant
                data@.len() + k == n,
                data@ =~= orig.subrange(k as int, n as int),
                ctx.wf(),
                ctx.handles@ == handles0,
                ctx.lists@.len() == lists_len0,
                id < ctx.lists@.len(),
                forall|l: int|
                    0 <= l < ctx.lists@.len() && l != id ==> ctx.lists@[l] == old(ctx).lists@[l],
                ctx.lists@[id as int]@.len() == k,
                forall|i: int|
                    0 <= i < k ==> (#[trigger] orig[i]).put_post(
                        old(ctx).handles@,
                        seq![ctx.lists@[id as int]@[i]],
                    ),
                ctx.slots@.len() >= 2,
                ctx.cells == old(ctx).cells,
                ctx.modules == old(ctx).modules,
            decreases data@.len(),
        {
            let ghost pre = data@;
            let el = data.remove(0);
            proof {
                assert(data@ =~= pre.drop_first());
                assert(el == orig[k as int]);
            }
            el.put(ctx, 1);
            let v = ctx.slots[1].clone();
            let ghost prelist = ctx.lists@[id as int]@;
            proof {
                assert(ctx.value_ok(ctx.slots@[1]));
                assert(ctx.slots@.subrange(1, 2) =~= seq![ctx.slots@[1]]);
            }
            heap_list_append(ctx, id, v);
            proof {
                assert(ctx.lists@[id as int]@ =~= prelist.push(v));
                assert(orig[k as int].put_post(old(ctx).handles@, seq![
                    ctx.lists@[id as int]@[k as int],
                ]));
            }
            k += 1;
        }
        let h = ctx.new_handle(HandleTarget::Value(SlotValue::List(id)));
        Ok(WrenList { handle: WrenHandle { handle: h, destructors: DestructorSender } })
    }

    /// The number of elements.
    pub fn len(&self, ctx: &WrenContext) -> (n: usize)
        requires
            self.wf_in(*ctx),
        ensures
            n == self.contents(*ctx).len(),
    {
        let id = self.read_id(ctx);
        ctx.lists[id].len()
    }

    pub fn is_empty(&self, ctx: &WrenContext) -> (r: bool)
        requires
            self.wf_in(*ctx),
        ensures
            r == (self.contents(*ctx).len() == 0),
    {
        self.len(ctx) == 0
    }

    /// Append a value to the back of the list. The value must encode into
    /// a single slot; what is appended is what writing it would have left
    /// there.
    pub fn push<T: ToWren>(&mut self, ctx: &mut WrenContext, item: T)
        requires
            old(ctx).wf(),
            old(self).wf_in(*old(ctx)),
            item.width() == 1,
            item.args_ok(old(ctx).handles@),
        ensures
            final(ctx).wf(),
            *final(self) == *old(self),
            final(self).wf_in(*final(ctx)),
            final(ctx).lists@.len() == old(ctx).lists@.len(),
            ({
                let id = old(self).list_id(*old(ctx));
                &&& final(ctx).lists@[id]@.len() == old(ctx).lists@[id]@.len() + 1
                &&& final(ctx).lists@[id]@.drop_last() =~= old(ctx).lists@[id]@
                &&& item.put_post(old(ctx).handles@, seq![final(ctx).lists@[id]@.last()])
                &&& (forall|l: int|
                    0 <= l < old(ctx).lists@.len() && l != id ==> final(ctx).lists@[l] == old(ctx).lists@[l])
            }),
            final(ctx).handles == old(ctx).handles,
            final(ctx).cells == old(ctx).cells,
            final(ctx).modules == old(ctx).modules,
    {
        ctx.ensure_slots(2);
        item.put(ctx, 1);
        let v = ctx.slots[1].clone();
        let id = self.read_id(ctx);
        proof {
            assert(ctx.value_ok(ctx.slots@[1]));
            assert(ctx.slots@.subrange(1, 2) =~= seq![ctx.slots@[1]]);
        }
        let ghost prelist = ctx.lists@[id as int]@;
        heap_list_append(ctx, id, v);
        proof {
            assert(ctx.lists@[id as int]@.drop_last() =~= prelist);
        }
    }

    /// Replace the element at `index`, which must be in bounds: the
    /// interpreter itself would not check. The value must encode into a
    /// single slot.
    pub fn set<T: ToWren>(&mut self, ctx: &mut WrenContext, index: usize, item: T)
        requires
            old(ctx).wf(),
            old(self).wf_in(*old(ctx)),
            item.width() == 1,
            item.args_ok(old(ctx).handles@),
            index < old(self).contents(*old(ctx)).len(),
        ensures
            final(ctx).wf(),
            *final(self) == *old(self),
            final(self).wf_in(*final(ctx)),
            final(ctx).lists@.len() == old(ctx).lists@.len(),
            ({
                let id = old(self).list_id(*old(ctx));
                &&& final(ctx).lists@[id]@.len() == old(ctx).lists@[id]@.len()
                &&& (forall|i: int|
                    0 <= i < old(ctx).lists@[id]@.len() && i != index ==> final(ctx).lists@[id]@[i] == old(ctx).lists@[id]@[i])
                &&& item.put_post(old(ctx).handles@, seq![final(ctx).lists@[id]@[index as int]])
                &&& (forall|l: int|
                    0 <= l < old(ctx).lists@.len() && l != id ==> final(ctx).lists@[l] == old(ctx).lists@[l])
            }),
            final(ctx).handles == old(ctx).handles,
            final(ctx).cells == old(ctx).cells,
            final(ctx).modules == old(ctx).modules,
    {
        ctx.ensure_slots(2);
        item.put(ctx, 1);
        let v = ctx.slots[1].clone();
        let id = self.read_id(ctx);
        proof {
            assert(ctx.value_ok(ctx.slots@[1]));
            assert(ctx.slots@.subrange(1, 2) =~= seq![ctx.slots@[1]]);
        }
        ctx.lists[id].set(index, v);
    }

    /// Read the element at `index`.
    ///
    /// An index at or past the end is a defined, empty outcome: `Ok(None)`
    /// — the bounds are checked here, before the interpreter would be
    /// asked. A null element also reads as `Ok(None)`; an element of the
    /// wrong dynamic type is a typed error.
    pub fn get<T: FromWren>(&self, ctx: &mut WrenContext, index: usize) -> (r: Result<
        Option<T>,
        WrenError,
    >)
        requires
            old(ctx).wf(),
            self.wf_in(*old(ctx)),
        ensures
            final(ctx).wf(),
            self.wf_in(*final(ctx)),
            final(ctx).lists == old(ctx).lists,
            final(ctx).cells == old(ctx).cells,
            final(ctx).modules == old(ctx).modules,
            old(ctx).handles@.is_prefix_of(final(ctx).handles@),
            index >= self.contents(*old(ctx)).len() ==> r == Ok::<Option<T>, WrenError>(None)
                && final(ctx).handles == old(ctx).handles,
            index < self.contents(*old(ctx)).len() ==> ({
                let e = self.contents(*old(ctx))[index as int];
                if e is Null {
                    r == Ok::<Option<T>, WrenError>(None)
                } else if T::accepts(e) {
                    r matches Ok(Some(out)) && T::extract(
                        old(ctx).handles@,
                        final(ctx).handles@,
                        e,
                        out,
                    )
                } else {
                    r == Err::<Option<T>, WrenError>(
                        WrenError::SlotType { expected: T::expected_type(), actual: e.ty() },
                    )
                }
            }),
    {
        let id = self.read_id(ctx);
        let n = ctx.lists[id].len();
        if index >= n {
            return Ok(None);
        }
        ctx.ensure_slots(2);
        let e = ctx.lists[id][index].clone();
        proof {
            assert(ctx.value_ok(ctx.lists@[id as int]@[index as int]));
        }
        ctx.write_slot(1, e);
        ctx.get_slot::<Option<T>>(1)
    }

    /// Copy the whole list into a host vector, reading each element as
    /// `T`.
    ///
    /// Aborts eagerly on the first element that does not convert,
    /// propagating that element's type error and discarding any partial
    /// result.
    #[verifier::loop_isolation(false)]
    pub fn to_vec<T: FromWren>(&self, ctx: &mut WrenContext) -> (r: Result<Vec<T>, WrenError>)
        requires
            old(ctx).wf(),
            self.wf_in(*old(ctx)),
        ensures
            final(ctx).wf(),
            self.wf_in(*final(ctx)),
            final(ctx).lists == old(ctx).lists,
            final(ctx).cells == old(ctx).cells,
            final(ctx).modules == old(ctx).modules,
            old(ctx).handles@.is_prefix_of(final(ctx).handles@),
            ({
                let contents = self.contents(*old(ctx));
                if all_convertible::<T>(contents) {
                    r matches Ok(out) && out@.len() == contents.len() && (forall|i: int|
                        0 <= i < contents.len() ==> crate::value::extracts::<T>(
                            contents[i],
                            #[trigger] out@[i],
                        ))
                } else {
                    ({
                        let bad = contents[first_bad::<T>(contents)];
                        r == Err::<Vec<T>, WrenError>(
                            WrenError::SlotType { expected: T::expected_type(), actual: bad.ty() },
                        )
                    })
                }
            }),
    {
        let id = self.read_id(ctx);
        let n = ctx.lists[id].len();
        let ghost contents = self.contents(*ctx);
        let mut out: Vec<T> = Vec::new();
        ctx.ensure_slots(2);
        let mut i: usize = 0;
        while i < n
            invariant
                i <= n,
                out@.len() == i,
                ctx.wf(),
                self.wf_in(*ctx),
                self.list_id(*ctx) == id,
                ctx.lists == old(ctx).lists,
                ctx.cells == old(ctx).cells,
                ctx.modules == old(ctx).modules,
                old(ctx).handles@.is_prefix_of(ctx.handles@),
                ctx.slots@.len() >= 2,
                forall|j: int| 0 <= j < i ==> T::accepts(#[trigger] contents[j]),
                forall|j: int|
                    0 <= j < i ==> crate::value::extracts::<T>(contents[j], #[trigger] out@[j]),
            decreases n - i,
        {
            let e = ctx.lists[id][i].clone();
            proof {
                assert(ctx.value_ok(ctx.lists@[id as int]@[i as int]));
            }
            ctx.write_slot(1, e);
            let ghost pre_handles = ctx.handles@;
            match ctx.get_slot::<T>(1) {
                Ok(v) => {
                    let ghost post_handles = ctx.handles@;
                    let ghost pre_out = out@;
                    out.push(v);
                    proof {
                        assert forall|j: int|
                            0 <= j < i + 1 implies crate::value::extracts::<T>(
                            contents[j],
                            #[trigger] out@[j],
                        ) by {
                            if j < i {
                                assert(out@[j] == pre_out[j]);
                                assert(crate::value::extracts::<T>(contents[j], pre_out[j]));
                            } else {
                                assert(out@[j] == v);
                                assert(T::extract(pre_handles, post_handles, contents[j], out@[j]));
                            }
                        }
                    }
                },
                Err(e) => {
                    proof {
                        lemma_first_bad::<T>(contents, i as int);
                    }
                    return Err(e);
                },
            }
            i += 1;
        }
        Ok(out)
    }

    /// Copy elements into the given buffer, reading each as `T`; at most
    /// as many elements as the buffer holds are copied, and the number
    /// copied is returned.
    ///
    /// Aborts eagerly on the first element that does not convert,
    /// propagating that element's type error and leaving the buffer
    /// untouched.
    #[verifier::loop_isolation(false)]
    pub fn clone_to<T: FromWren>(&self, ctx: &mut WrenContext, buf: &mut Vec<T>) -> (r: Result<
        usize,
        WrenError,
    >)
        requires
            old(ctx).wf(),
            self.wf_in(*old(ctx)),
        ensures
            final(ctx).wf(),
            self.wf_in(*final(ctx)),
            final(ctx).lists == old(ctx).lists,
            final(ctx).cells == old(ctx).cells,
            final(ctx).modules == old(ctx).modules,
            old(ctx).handles@.is_prefix_of(final(ctx).handles@),
            ({
                let contents = self.contents(*old(ctx));
                let size = if contents.len() <= old(buf)@.len() {
                    contents.len() as int
                } else {
                    old(buf)@.len() as int
                };
                if all_convertible::<T>(contents.subrange(0, size)) {
                    &&& r == Ok::<usize, WrenError>(size as usize)
                    &&& final(buf)@.len() == old(buf)@.len()
                    &&& (forall|i: int|
                        size <= i < old(buf)@.len() ==> final(buf)@[i] == old(buf)@[i])
                    &&& (forall|i: int|
                        0 <= i < size ==> crate::value::extracts::<T>(
                            contents[i],
                            #[trigger] final(buf)@[i],
                        ))
                } else {
                    ({
                        let bad = contents.subrange(0, size)[first_bad::<T>(
                            contents.subrange(0, size),
                        )];
                        &&& r == Err::<usize, WrenError>(
                            WrenError::SlotType { expected: T::expected_type(), actual: bad.ty() },
                        )
                        &&& *final(buf) == *old(buf)
                    })
                }
            }),
    {
        let id = self.read_id(ctx);
        let n = ctx.lists[id].len();
        let m = buf.len();
        let size = if n <= m {
            n
        } else {
            m
        };
        let ghost contents = self.contents(*ctx);
        let ghost prefix = contents.subrange(0, size as int);
        ctx.ensure_slots(2);
        let mut tmp: Vec<T> = Vec::new();
        let mut i: usize = 0;
        while i < size
            invariant
                i <= size,
                size <= n,
                size <= m,
                n == contents.len(),
                tmp@.len() == i,
                ctx.wf(),
                self.wf_in(*ctx),
                self.list_id(*ctx) == id,
                ctx.lists == old(ctx).lists,
                ctx.cells == old(ctx).cells,
                ctx.modules == old(ctx).modules,
                old(ctx).handles@.is_prefix_of(ctx.handles@),
                ctx.slots@.len() >= 2,
                forall|j: int| 0 <= j < i ==> T::accepts(#[trigger] prefix[j]),
                forall|j: int|
                    0 <= j < i ==> crate::value::extracts::<T>(contents[j], #[trigger] tmp@[j]),
            decreases size - i,
        {
            let e = ctx.lists[id][i].clone();
            proof {
                assert(ctx.value_ok(ctx.lists@[id as int]@[i as int]));
            }
            ctx.write_slot(1, e);
            let ghost pre_handles = ctx.handles@;
            match ctx.get_slot::<T>(1) {
                Ok(v) => {
                    let ghost post_handles = ctx.handles@;
                    let ghost pre_tmp = tmp@;
                    tmp.push(v);
                    proof {
                        assert(prefix[i as int] == contents[i as int]);
                        assert forall|j: int|
                            0 <= j < i + 1 implies crate::value::extracts::<T>(
                            contents[j],
                            #[trigger] tmp@[j],
                        ) by {
                            if j < i {
                                assert(tmp@[j] == pre_tmp[j]);
                                assert(crate::value::extracts::<T>(contents[j], pre_tmp[j]));
                            } else {
                                assert(tmp@[j] == v);
                                assert(T::extract(pre_handles, post_handles, contents[j], tmp@[j]));
                            }
                        }
                    }
                },
                Err(e) => {
                    proof {
                        lemma_first_bad::<T>(prefix, i as int);
                    }
                    return Err(e);
                },
            }
            i += 1;
        }
        // All elements converted; commit into the buffer.
        let mut i: usize = 0;
        let ghost committed = tmp@;
        proof {
            assert(prefix =~= contents.subrange(0, size as int));
            assert forall|j: int|
                0 <= j < size implies crate::value::extracts::<T>(
                contents[j],
                #[trigger] committed[j],
            ) by {
                assert(committed[j] == tmp@[j]);
            }
            assert(all_convertible::<T>(prefix));
        }
        while tmp.len() > 0
            invariant
                i + tmp@.len() == size,
                tmp@ =~= committed.subrange(i as int, size as int),
                buf@.len() == old(buf)@.len(),
                size <= buf@.len(),
                forall|j: int| 0 <= j < i ==> buf@[j] == committed[j],
                forall|j: int| i <= j < old(buf)@.len() ==> buf@[j] == old(buf)@[j],
            decreases tmp@.len(),
        {
            let ghost pre = tmp@;
            let v = tmp.remove(0);
            proof {
                assert(tmp@ =~= pre.drop_first());
                assert(v == committed[i as int]);
            }
            buf.set(i, v);
            i += 1;
        }
        proof {
            assert forall|j: int|
                0 <= j < size implies crate::value::extracts::<T>(
                contents[j],
                #[trigger] buf@[j],
            ) by {
                assert(buf@[j] == committed[j]);
                assert(crate::value::extracts::<T>(contents[j], committed[j]));
            }
        }
        Ok(size)
    }

    /// The heap index this handle pins, read out of the handle table.
    fn read_id(&self, ctx: &WrenContext) -> (id: usize)
        requires
            self.wf_in(*ctx),
        ensures
            id as int == self.list_id(*ctx),
            id < ctx.lists@.len(),
    {
        match &ctx.handles[self.handle.handle].target {
            HandleTarget::Value(SlotValue::List(id)) => *id,
            // Unreachable: the handle is known to pin a list.
            _ => {
                proof {
                    assert(false);
                }
                0
            },
        }
    }
}

/// Round trip for lists of numbers: a list built from host values, as
/// [`WrenList::from_vec`] builds it, converts wholly, and every element
/// reads back as the number it was built from — so copying the list out
/// again returns the original values.
pub proof fn lemma_round_trip_list_i64(
    data: Seq<i64>,
    handles: Seq<HandleEntry>,
    contents: Seq<SlotValue>,
)
    requires
        contents.len() == data.len(),
        forall|i: int|
            0 <= i < data.len() ==> (#[trigger] data[i]).put_post(handles, seq![contents[i]]),
    ensures
        all_convertible::<i64>(contents),
        forall|i: int, out: i64|
            0 <= i < data.len() && #[trigger] <i64 as FromWren>::extract(
                handles,
                handles,
                contents[i],
                out,
            ) ==> out == data[i],
{
    assert forall|i: int| 0 <= i < contents.len() implies <i64 as FromWren>::accepts(
        #[trigger] contents[i],
    ) by {
        assert(data[i].put_post(handles, seq![contents[i]]));
        assert(seq![contents[i]][0] == contents[i]);
        assert(contents[i] == SlotValue::Num(data[i] as i64));
    }
    assert forall|i: int, out: i64|
        0 <= i < data.len() && #[trigger] <i64 as FromWren>::extract(
            handles,
            handles,
            contents[i],
            out,
        ) implies out == data[i] by {
        assert(data[i].put_post(handles, seq![contents[i]]));
        assert(seq![contents[i]][0] == contents[i]);
        assert(contents[i] == SlotValue::Num(data[i] as i64));
    }
}

impl FromWren for WrenList {
    open spec fn expected_type() -> WrenType {
        WrenType::List
    }

    open spec fn accepts(v: SlotValue) -> bool {
        v is List
    }

    open spec fn extract(
        pre_handles: Seq<HandleEntry>,
        post_handles: Seq<HandleEntry>,
        v: SlotValue,
        out: Self,
    ) -> bool {
        &&& post_handles == pre_handles.push(
            HandleEntry { alive: true, target: HandleTarget::Value(v) },
        )
        &&& out.handle.handle == pre_handles.len()
        &&& out.handle.destructors == DestructorSender
    }

    fn get_slot(ctx: &mut WrenContext, slot: i32) -> (r: Result<Self, crate::errors::WrenError>) {
        if slot < 0 {
            return Err(WrenError::SlotOutOfBounds(slot));
        }
        let idx = slot as usize;
        if idx >= ctx.slots.len() {
            return Err(WrenError::SlotOutOfBounds(slot));
        }
        let is_list = match &ctx.slots[idx] {
            SlotValue::List(_) => true,
            _ => false,
        };
        if !is_list {
            let actual = ctx.slots[idx].slot_type();
            return Err(WrenError::SlotType { expected: WrenType::List, actual });
        }
        let v = ctx.slots[idx].clone();
        let id = ctx.new_handle(HandleTarget::Value(v));
        Ok(WrenList { handle: WrenHandle { handle: id, destructors: DestructorSender } })
    }
}

/// Append a value to a list on the heap.
fn heap_list_append(ctx: &mut WrenContext, id: usize, v: SlotValue)
    requires
        old(ctx).wf(),
        id < old(ctx).lists@.len(),
        old(ctx).value_ok(v),
    ensures
        final(ctx).wf(),
        final(ctx).lists@.len() == old(ctx).lists@.len(),
        final(ctx).lists@[id as int]@ == old(ctx).lists@[id as int]@.push(v),
        forall|l: int|
            0 <= l < old(ctx).lists@.len() && l != id ==> final(ctx).lists@[l] == old(ctx).lists@[l],
        final(ctx).slots == old(ctx).slots,
        final(ctx).cells == old(ctx).cells,
        final(ctx).handles == old(ctx).handles,
        final(ctx).modules == old(ctx).modules,
        final(ctx).user == old(ctx).user,
{
    ctx.lists[id].push(v);
}

impl WrenContext {
    /// Look a top-level list variable up and pin it as a [`WrenList`].
    ///
    /// Fails like [`WrenContext::get_var`] when the module or variable is
    /// missing, and with a type error when the variable does not hold a
    /// list.
    pub fn get_list(&mut self, module: &str, name: &str) -> (r: WrenResult<WrenList>)
        requires
            old(self).wf(),
        ensures
            final(self).wf(),
            final(self).lists == old(self).lists,
            final(self).cells == old(self).cells,
            final(self).modules == old(self).modules,
            find_module(old(self).modules@, module@) < 0 ==> (r matches Err(
                WrenError::ModuleNotFound(m),
            ) && m@ == module@),
            (find_module(old(self).modules@, module@) >= 0 && lookup_var(
                old(self).modules@,
                module@,
                name@,
            ) is None) ==> (r matches Err(WrenError::VariableNotFound(n)) && n@ == name@),
            lookup_var(old(self).modules@, module@, name@) matches Some(v) ==> (match v {
                SlotValue::List(id) => r matches Ok(l) && l.wf_in(*final(self)) && l.list_id(
                    *final(self),
                ) == id,
                _ => r == Err::<WrenList, WrenError>(
                    WrenError::SlotType { expected: WrenType::List, actual: v.ty() },
                ),
            }),
    {
        let wr = match self.get_var(module, name) {
            Ok(wr) => wr,
            Err(e) => {
                return Err(e);
            },
        };
        let is_list = match &self.handles[wr.handle].target {
            HandleTarget::Value(SlotValue::List(_)) => true,
            _ => false,
        };
        if !is_list {
            let actual = match &self.handles[wr.handle].target {
                HandleTarget::Value(v) => v.slot_type(),
                // Unreachable: the handle is known to pin a value.
                HandleTarget::FnSym(_) => {
                    proof {
                        assert(false);
                    }
                    WrenType::Unknown
                },
            };
            let mut wr = wr;
            wr.release(self);
            return Err(WrenError::SlotType { expected: WrenType::List, actual });
        }
        match wr.leak() {
            Ok(h) => Ok(WrenList { handle: h }),
            // Unreachable: a handle fresh from lookup still holds its
            // release right.
            Err(_) => {
                proof {
                    assert(false);
                }
                Err(WrenError::AlreadyLeaked)
            },
        }
    }
}

} // verus!
