//! Type-tagged foreign cells.
//!
//! A foreign cell stores a host value inside interpreter-owned memory.
//! Because scripts are dynamically typed, an untyped pointer coming back
//! from the interpreter must never be cast without first comparing the
//! cell's type tag, a discriminant stored in the cell itself. Borrows of
//! the cell's contents are likewise checked at runtime: a script can hand
//! the same cell to a call twice, so aliasing must surface as a typed
//! error, never as undefined behaviour or a panic.
use vstd::prelude::*;

use crate::errors::WrenError;

verus! {

/// Runtime borrow state of a foreign cell.
#[derive(Debug, PartialEq, Eq, Structural, Clone, Copy)]
pub enum BorrowFlag {
    /// No borrow is held.
    Available,
    /// The given number of shared borrows are held.
    Reading(u64),
    /// One exclusive borrow is held.
    Writing,
}

/// A shared borrow may be taken while no exclusive borrow is held.
pub open spec fn can_borrow(f: BorrowFlag) -> bool {
    !(f is Writing)
}

/// An exclusive borrow may be taken only while no borrow at all is held.
pub open spec fn can_borrow_mut(f: BorrowFlag) -> bool {
    f is Available
}

/// The borrow state after one more shared borrow is taken.
pub open spec fn with_reader(f: BorrowFlag) -> BorrowFlag {
    match f {
        BorrowFlag::Available => BorrowFlag::Reading(1),
        BorrowFlag::Reading(n) => BorrowFlag::Reading((n + 1) as u64),
        BorrowFlag::Writing => BorrowFlag::Writing,
    }
}

/// Aliasing a mutable borrow with any other borrow of the same cell is a
/// conflict that is refused, in both directions: while any borrow is held
/// no exclusive borrow can be taken, and while an exclusive borrow is held
/// no borrow at all can be taken. [`WrenCell::try_borrow`] and
/// [`WrenCell::try_borrow_mut`] return their errors exactly in these
/// states.
pub proof fn lemma_borrow_conflict(f: BorrowFlag)
    ensures
        !(f is Available) ==> !can_borrow_mut(f),
        f is Writing ==> !can_borrow(f) && !can_borrow_mut(f),
        can_borrow_mut(f) ==> can_borrow(f),
{
}

/// The untyped host payload stored in the session's foreign cell heap.
///
/// The heap is shared by every registered foreign class, so the payload is
/// a plain field vector; which fields mean what is up to the class whose
/// tag the cell carries.
#[derive(Debug)]
pub struct ForeignValue {
    pub fields: Vec<i64>,
}

/// A host value stored in interpreter-owned memory, together with its type
/// tag and runtime borrow state.
///
/// The tag is an explicit discriminant: an untyped pointer is accepted as a
/// cell of some class only if the tag stored in the cell equals the class's
/// registered tag. The borrow flag makes the interior-borrow discipline a
/// checked state machine.
#[derive(Debug)]
pub struct WrenCell<T> {
    pub type_id: u64,
    pub flag: BorrowFlag,
    pub value: T,
}

impl<T> WrenCell<T> {
    /// True when one more shared borrow can be counted without overflow.
    pub open spec fn reader_count_ok(self) -> bool {
        !(self.flag matches BorrowFlag::Reading(n) && n == u64::MAX)
    }

    /// Wrap a value with its type tag. The cell starts unborrowed.
    pub fn new(type_id: u64, inner: T) -> (c: Self)
        ensures
            c == (WrenCell { type_id, flag: BorrowFlag::Available, value: inner }),
    {
        WrenCell { type_id, flag: BorrowFlag::Available, value: inner }
    }

    /// Read the contents while no exclusive borrow is held.
    pub fn borrow(&self) -> (r: &T)
        requires
            can_borrow(self.flag),
        ensures
            r == &self.value,
    {
        &self.value
    }

    /// Write access to the contents while no borrow at all is held.
    pub fn borrow_mut(&mut self) -> (r: &mut T)
        requires
            can_borrow_mut(old(self).flag),
        ensures
            *r == old(self).value,
            *final(self) == (WrenCell { value: *final(r), ..*old(self) }),
    {
        &mut self.value
    }

    /// Take a shared borrow, or report the conflict.
    ///
    /// Returns `Err(BorrowError)` exactly when an exclusive borrow is held;
    /// on success one more shared borrow is counted. Release it again with
    /// [`WrenCell::release_borrow`].
    pub fn try_borrow(&mut self) -> (r: Result<(), WrenError>)
        requires
            old(self).reader_count_ok(),
        ensures
            final(self).type_id == old(self).type_id,
            final(self).value == old(self).value,
            if can_borrow(old(self).flag) {
                r == Ok::<(), WrenError>(()) && final(self).flag == with_reader(old(self).flag)
            } else {
                r == Err::<(), WrenError>(WrenError::BorrowError) && final(self).flag == old(self).flag
            },
    {
        match self.flag {
            BorrowFlag::Available => {
                self.flag = BorrowFlag::Reading(1);
                Ok(())
            },
            BorrowFlag::Reading(n) => {
                self.flag = BorrowFlag::Reading(n + 1);
                Ok(())
            },
            BorrowFlag::Writing => Err(WrenError::BorrowError),
        }
    }

    /// Take the exclusive borrow, or report the conflict.
    ///
    /// Returns `Err(BorrowMutError)` exactly when any borrow is held.
    /// Release it again with [`WrenCell::release_borrow_mut`].
    pub fn try_borrow_mut(&mut self) -> (r: Result<(), WrenError>)
        ensures
            final(self).type_id == old(self).type_id,
            final(self).value == old(self).value,
            if can_borrow_mut(old(self).flag) {
                r == Ok::<(), WrenError>(()) && final(self).flag == BorrowFlag::Writing
            } else {
                r == Err::<(), WrenError>(WrenError::BorrowMutError) && final(self).flag == old(self).flag
            },
    {
        match self.flag {
            BorrowFlag::Available => {
                self.flag = BorrowFlag::Writing;
                Ok(())
            },
            _ => Err(WrenError::BorrowMutError),
        }
    }

    /// Give back one shared borrow.
    pub fn release_borrow(&mut self)
        requires
            old(self).flag matches BorrowFlag::Reading(n) && n >= 1,
        ensures
            final(self).type_id == old(self).type_id,
            final(self).value == old(self).value,
            final(self).flag == (match old(self).flag {
                BorrowFlag::Reading(n) => if n == 1 {
                    BorrowFlag::Available
                } else {
                    BorrowFlag::Reading((n - 1) as u64)
                },
                _ => old(self).flag,
            }),
    {
        match self.flag {
            BorrowFlag::Reading(n) => {
                if n == 1 {
                    self.flag = BorrowFlag::Available;
                } else {
                    self.flag = BorrowFlag::Reading(n - 1);
                }
            },
            _ => {},
        }
    }

    /// Give back the exclusive borrow.
    pub fn release_borrow_mut(&mut self)
        requires
            old(self).flag is Writing,
        ensures
            final(self).type_id == old(self).type_id,
            final(self).value == old(self).value,
            final(self).flag == BorrowFlag::Available,
    {
        self.flag = BorrowFlag::Available;
    }
}

/// A host type that can be registered as a foreign class: it names
/// itself, carries a type tag for the cell check, and registers its
/// bindings.
pub trait WrenForeignClass {
    /// The class name on the script side.
    fn name() -> String;

    /// The discriminant stored in this type's cells.
    fn type_tag() -> u64;

    /// Register the class's allocate, finalize and method bindings.
    fn register(bindings: &mut crate::vm::ModuleBuilder);
}

/// Whether an untyped foreign pointer passes the type check for the given
/// tag: it is non-null, it points into the cell heap, and the tag stored
/// in the cell equals the expected one.
pub open spec fn is_type_spec(ctx: crate::vm::WrenContext, ptr: Option<usize>, type_id: u64) -> bool {
    ptr matches Some(id) && id < ctx.cells@.len() && ctx.cells@[id as int].type_id == type_id
}

/// No pointer passes the type check for two different tags: a cell
/// stores exactly one discriminant, so a cell of one host type can never
/// be accepted as a cell of another.
pub proof fn lemma_type_tag_integrity(
    ctx: crate::vm::WrenContext,
    ptr: Option<usize>,
    t1: u64,
    t2: u64,
)
    requires
        t1 != t2,
    ensures
        !(is_type_spec(ctx, ptr, t1) && is_type_spec(ctx, ptr, t2)),
{
}

impl WrenCell<ForeignValue> {
    /// Check the tag a foreign pointer carries before any cast. A null
    /// pointer never passes.
    pub fn is_type(ctx: &crate::vm::WrenContext, ptr: Option<usize>, type_id: u64) -> (r: bool)
        ensures
            r == is_type_spec(*ctx, ptr, type_id),
    {
        match ptr {
            None => false,
            Some(id) => id < ctx.cells.len() && ctx.cells[id].type_id == type_id,
        }
    }

    /// Cast a foreign pointer to a cell reference, after checking its
    /// tag. A null pointer is refused with `NullPtr`; a pointer of the
    /// wrong origin, with `ForeignType`. This is the single safety gate
    /// in front of every foreign method.
    pub fn from_ptr<'a>(
        ctx: &'a crate::vm::WrenContext,
        ptr: Option<usize>,
        type_id: u64,
    ) -> (r: Result<&'a WrenCell<ForeignValue>, WrenError>)
        ensures
            is_type_spec(*ctx, ptr, type_id) ==> (r matches Ok(c) && (ptr matches Some(id) && c
                == &ctx.cells@[id as int])),
            ptr is None ==> r == Err::<&'a WrenCell<ForeignValue>, WrenError>(WrenError::NullPtr),
            (ptr is Some && !is_type_spec(*ctx, ptr, type_id)) ==> r == Err::<
                &'a WrenCell<ForeignValue>,
                WrenError,
            >(WrenError::ForeignType),
    {
        match ptr {
            None => Err(WrenError::NullPtr),
            Some(id) => {
                if !Self::is_type(ctx, ptr, type_id) {
                    return Err(WrenError::ForeignType);
                }
                Ok(&ctx.cells[id])
            },
        }
    }
}

impl crate::vm::WrenContext {
    /// Take a shared borrow of a heap cell, or report the conflict; see
    /// [`WrenCell::try_borrow`].
    pub fn try_borrow_cell(&mut self, id: usize) -> (r: Result<(), WrenError>)
        requires
            old(self).wf(),
            id < old(self).cells@.len(),
            old(self).cells@[id as int].reader_count_ok(),
        ensures
            final(self).wf(),
            final(self).cells@.len() == old(self).cells@.len(),
            forall|c: int|
                0 <= c < old(self).cells@.len() && c != id ==> final(self).cells@[c] == old(self).cells@[c],
            final(self).cells@[id as int].type_id == old(self).cells@[id as int].type_id,
            final(self).cells@[id as int].value == old(self).cells@[id as int].value,
            if can_borrow(old(self).cells@[id as int].flag) {
                r == Ok::<(), WrenError>(()) && final(self).cells@[id as int].flag == with_reader(
                    old(self).cells@[id as int].flag,
                )
            } else {
                r == Err::<(), WrenError>(WrenError::BorrowError) && final(self).cells@[id as int].flag
                    == old(self).cells@[id as int].flag
            },
            final(self).slots == old(self).slots,
            final(self).lists == old(self).lists,
            final(self).handles == old(self).handles,
            final(self).modules == old(self).modules,
            final(self).user == old(self).user,
    {
        self.cells[id].try_borrow()
    }

    /// Take the exclusive borrow of a heap cell, or report the conflict;
    /// see [`WrenCell::try_borrow_mut`].
    pub fn try_borrow_cell_mut(&mut self, id: usize) -> (r: Result<(), WrenError>)
        requires
            old(self).wf(),
            id < old(self).cells@.len(),
        ensures
            final(self).wf(),
            final(self).cells@.len() == old(self).cells@.len(),
            forall|c: int|
                0 <= c < old(self).cells@.len() && c != id ==> final(self).cells@[c] == old(self).cells@[c],
            final(self).cells@[id as int].type_id == old(self).cells@[id as int].type_id,
            final(self).cells@[id as int].value == old(self).cells@[id as int].value,
            if can_borrow_mut(old(self).cells@[id as int].flag) {
                r == Ok::<(), WrenError>(()) && final(self).cells@[id as int].flag
                    == BorrowFlag::Writing
            } else {
                r == Err::<(), WrenError>(WrenError::BorrowMutError) && final(self).cells@[id as int].flag == old(self).cells@[id as int].flag
            },
            final(self).slots == old(self).slots,
            final(self).lists == old(self).lists,
            final(self).handles == old(self).handles,
            final(self).modules == old(self).modules,
            final(self).user == old(self).user,
    {
        self.cells[id].try_borrow_mut()
    }

    /// Give back one shared borrow of a heap cell.
    pub fn release_cell(&mut self, id: usize)
        requires
            old(self).wf(),
            id < old(self).cells@.len(),
            old(self).cells@[id as int].flag matches BorrowFlag::Reading(n) && n >= 1,
        ensures
            final(self).wf(),
            final(self).cells@.len() == old(self).cells@.len(),
            forall|c: int|
                0 <= c < old(self).cells@.len() && c != id ==> final(self).cells@[c] == old(self).cells@[c],
            final(self).cells@[id as int].type_id == old(self).cells@[id as int].type_id,
            final(self).cells@[id as int].value == old(self).cells@[id as int].value,
            final(self).cells@[id as int].flag == (match old(self).cells@[id as int].flag {
                BorrowFlag::Reading(n) => if n == 1 {
                    BorrowFlag::Available
                } else {
                    BorrowFlag::Reading((n - 1) as u64)
                },
                _ => old(self).cells@[id as int].flag,
            }),
            final(self).slots == old(self).slots,
            final(self).lists == old(self).lists,
            final(self).handles == old(self).handles,
            final(self).modules == old(self).modules,
            final(self).user == old(self).user,
    {
        self.cells[id].release_borrow();
    }

    /// Give back the exclusive borrow of a heap cell.
    pub fn release_cell_mut(&mut self, id: usize)
        requires
            old(self).wf(),
            id < old(self).cells@.len(),
            old(self).cells@[id as int].flag is Writing,
        ensures
            final(self).wf(),
            final(self).cells@.len() == old(self).cells@.len(),
            forall|c: int|
                0 <= c < old(self).cells@.len() && c != id ==> final(self).cells@[c] == old(self).cells@[c],
            final(self).cells@[id as int].type_id == old(self).cells@[id as int].type_id,
            final(self).cells@[id as int].value == old(self).cells@[id as int].value,
            final(self).cells@[id as int].flag == BorrowFlag::Available,
            final(self).slots == old(self).slots,
            final(self).lists == old(self).lists,
            final(self).handles == old(self).handles,
            final(self).modules == old(self).modules,
            final(self).user == old(self).user,
    {
        self.cells[id].release_borrow_mut();
    }

    /// Read a heap cell's contents while no exclusive borrow is held.
    pub fn cell_value(&self, id: usize) -> (r: &ForeignValue)
        requires
            id < self.cells@.len(),
            can_borrow(self.cells@[id as int].flag),
        ensures
            r == &self.cells@[id as int].value,
    {
        self.cells[id].borrow()
    }

    /// The foreign cell a slot refers to, with its type tag checked.
    ///
    /// Fails with the slot errors when the slot is out of bounds or does
    /// not hold a foreign value, and with `ForeignType` when the cell's
    /// tag is not the expected one.
    pub fn get_foreign_cell<'a>(&'a self, index: usize, type_id: u64) -> (r: Result<
        &'a WrenCell<ForeignValue>,
        WrenError,
    >)
        requires
            self.wf(),
        ensures
            index >= self.slots@.len() ==> r == Err::<&'a WrenCell<ForeignValue>, WrenError>(
                WrenError::SlotOutOfBounds(index as i32),
            ),
            index < self.slots@.len() ==> (match self.slots@[index as int] {
                crate::types::SlotValue::Foreign(id) => if self.cells@[id as int].type_id
                    == type_id {
                    r matches Ok(c) && c == &self.cells@[id as int]
                } else {
                    r == Err::<&'a WrenCell<ForeignValue>, WrenError>(WrenError::ForeignType)
                },
                _ => r == Err::<&'a WrenCell<ForeignValue>, WrenError>(
                    WrenError::SlotType {
                        expected: crate::types::WrenType::Foreign,
                        actual: self.slots@[index as int].ty(),
                    },
                ),
            }),
    {
        if index >= self.slots.len() {
            return Err(WrenError::SlotOutOfBounds(index as i32));
        }
        match &self.slots[index] {
            crate::types::SlotValue::Foreign(id) => {
                WrenCell::<ForeignValue>::from_ptr(self, Some(*id), type_id)
            },
            v => Err(
                WrenError::SlotType {
                    expected: crate::types::WrenType::Foreign,
                    actual: v.slot_type(),
                },
            ),
        }
    }
}

} // verus!
