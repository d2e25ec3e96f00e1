//! Interpreter callback handlers and leak diagnostics.
//!
//! The write and error callbacks run while a script executes; they only
//! record: output is collected, error events are queued for the
//! aggregation pipeline. The diagnostics at the bottom report handles
//! that are still pinned, which is how a forgotten release shows up.
use vstd::prelude::*;

use crate::errors::WrenVmError;
use crate::text::{smol_new, smol_text};
use crate::vm::{WrenContext, WrenVm};

verus! {

/// Which kind of event the interpreter's error callback reports.
#[derive(Debug, PartialEq, Eq, Structural, Clone, Copy)]
pub enum WrenErrorKind {
    Compile,
    Runtime,
    StackTrace,
}

/// Handle the interpreter's write callback: collect one piece of script
/// output.
pub fn write_function(ctx: &mut WrenContext, text: &str)
    ensures
        final(ctx).user.output@.len() == old(ctx).user.output@.len() + 1,
        forall|i: int|
            0 <= i < old(ctx).user.output@.len() ==> final(ctx).user.output@[i] == old(
                ctx,
            ).user.output@[i],
        final(ctx).user.output@.last()@ == text@,
        final(ctx).slots == old(ctx).slots,
        final(ctx).lists == old(ctx).lists,
        final(ctx).cells == old(ctx).cells,
        final(ctx).handles == old(ctx).handles,
        final(ctx).modules == old(ctx).modules,
        final(ctx).user.foreign == old(ctx).user.foreign,
        final(ctx).user.errors == old(ctx).user.errors,
        final(ctx).user.release_queue == old(ctx).user.release_queue,
        old(ctx).wf() ==> final(ctx).wf(),
{
    ctx.user.output.push(String::from_str(text));
}

/// Handle the interpreter's error callback: queue one error event of the
/// reported kind. Stack trace frames recorded this way are script frames;
/// foreign frames enter the queue only through a foreign error's abort.
pub fn error_function(
    ctx: &mut WrenContext,
    error_type: WrenErrorKind,
    module: &str,
    line: i32,
    message: &str,
)
    ensures
        final(ctx).user.errors@.len() == old(ctx).user.errors@.len() + 1,
        final(ctx).user.errors@.drop_last() == old(ctx).user.errors@,
        ({
            let ev = final(ctx).user.errors@.last();
            match error_type {
                WrenErrorKind::Compile => ev matches WrenVmError::Compile {
                    module: m,
                    message: msg,
                    line: l,
                } && smol_text(m) == module@ && msg@ == message@ && l == line,
                WrenErrorKind::Runtime => ev matches WrenVmError::Runtime { msg } && msg@
                    == message@,
                WrenErrorKind::StackTrace => ev matches WrenVmError::StackTrace {
                    module: m,
                    function: f,
                    line: l,
                    is_foreign,
                } && smol_text(m) == module@ && smol_text(f) == message@ && l == line
                    && !is_foreign,
            }
        }),
        final(ctx).slots == old(ctx).slots,
        final(ctx).lists == old(ctx).lists,
        final(ctx).cells == old(ctx).cells,
        final(ctx).handles == old(ctx).handles,
        final(ctx).modules == old(ctx).modules,
        final(ctx).user.foreign == old(ctx).user.foreign,
        final(ctx).user.output == old(ctx).user.output,
        final(ctx).user.release_queue == old(ctx).user.release_queue,
        old(ctx).wf() ==> final(ctx).wf(),
{
    let ev = match error_type {
        WrenErrorKind::Compile => WrenVmError::Compile {
            module: smol_new(module),
            message: String::from_str(message),
            line,
        },
        WrenErrorKind::Runtime => WrenVmError::Runtime { msg: String::from_str(message) },
        WrenErrorKind::StackTrace => WrenVmError::StackTrace {
            module: smol_new(module),
            function: smol_new(message),
            line,
            is_foreign: false,
        },
    };
    ctx.user.errors.push(ev);
}

/// How many handles are still pinned.
pub open spec fn live_handle_count(handles: Seq<crate::vm::HandleEntry>) -> int
    decreases handles.len(),
{
    if handles.len() == 0 {
        0
    } else {
        live_handle_count(handles.drop_last()) + (if handles.last().alive {
            1int
        } else {
            0int
        })
    }
}

/// Every handle of an empty count is dead.
proof fn lemma_live_count_zero(handles: Seq<crate::vm::HandleEntry>)
    requires
        live_handle_count(handles) == 0,
    ensures
        forall|i: int| 0 <= i < handles.len() ==> !(#[trigger] handles[i]).alive,
    decreases handles.len(),
{
    if handles.len() > 0 {
        lemma_live_count_nonneg(handles.drop_last());
        lemma_live_count_zero(handles.drop_last());
        assert forall|i: int| 0 <= i < handles.len() implies !(#[trigger] handles[i]).alive by {
            if i < handles.len() - 1 {
                assert(handles.drop_last()[i] == handles[i]);
            }
        }
    }
}

proof fn lemma_live_count_nonneg(handles: Seq<crate::vm::HandleEntry>)
    ensures
        live_handle_count(handles) >= 0,
    decreases handles.len(),
{
    if handles.len() > 0 {
        lemma_live_count_nonneg(handles.drop_last());
    }
}

/// Assert that every pinned handle has been released and serviced.
///
/// A session that still holds live handles is a leak; that state is a
/// caller error and is excluded here rather than detected by a panic.
pub fn assert_all_deallocated(vm: &WrenVm)
    requires
        live_handle_count(vm.ctx.handles@) == 0,
    ensures
        forall|i: int| 0 <= i < vm.ctx.handles@.len() ==> !(#[trigger] vm.ctx.handles@[i]).alive,
{
    proof {
        lemma_live_count_zero(vm.ctx.handles@);
    }
}

/// Report the handles that are still pinned, in index order: the leak
/// diagnostic to consult before dropping a session.
#[verifier::loop_isolation(false)]
pub fn dump_allocations(vm: &WrenVm) -> (r: Vec<usize>)
    ensures
        forall|j: int|
            0 <= j < r@.len() ==> (#[trigger] r@[j]) < vm.ctx.handles@.len()
                && vm.ctx.handles@[r@[j] as int].alive,
        forall|h: int|
            0 <= h < vm.ctx.handles@.len() && (#[trigger] vm.ctx.handles@[h]).alive ==> exists|
                j: int,
            | 0 <= j < r@.len() && (#[trigger] r@[j]) as int == h,
        forall|j1: int, j2: int| 0 <= j1 < j2 < r@.len() ==> r@[j1] < r@[j2],
{
    let mut r: Vec<usize> = Vec::new();
    let n = vm.ctx.handles.len();
    let mut h: usize = 0;
    while h < n
        invariant
            h <= n,
            forall|j: int|
                0 <= j < r@.len() ==> (#[trigger] r@[j]) < h && vm.ctx.handles@[r@[j] as int].alive,
            forall|i: int|
                0 <= i < h && (#[trigger] vm.ctx.handles@[i]).alive ==> exists|j: int|
                    0 <= j < r@.len() && (#[trigger] r@[j]) as int == i,
            forall|j1: int, j2: int| 0 <= j1 < j2 < r@.len() ==> r@[j1] < r@[j2],
        decreases n - h,
    {
        let ghost pre_r = r@;
        if vm.ctx.handles[h].alive {
            r.push(h);
        }
        proof {
            assert forall|i: int|
                0 <= i < h + 1 && (#[trigger] vm.ctx.handles@[i]).alive implies exists|j: int|
                0 <= j < r@.len() && (#[trigger] r@[j]) as int == i by {
                if i < h {
                    let j = choose|j: int| 0 <= j < pre_r.len() && (#[trigger] pre_r[j]) as int == i;
                    assert(r@[j] as int == i);
                } else {
                    assert(r@[r@.len() - 1] as int == i);
                }
            }
        }
        h += 1;
    }
    r
}

} // verus!
