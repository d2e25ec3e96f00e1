//! Foreign cells: type-tag checks and runtime borrow tracking.
use rust_wren::class::{BorrowFlag, ForeignValue, WrenCell};
use rust_wren::errors::WrenError;
use rust_wren::types::SlotValue;
use rust_wren::vm::WrenBuilder;

const TAG_A: u64 = 11;
const TAG_B: u64 = 12;
const TAG_EMPTY: u64 = 13;

#[test]
fn test_is_type() {
    let mut vm = WrenBuilder::new().build();
    let ctx = vm.context();
    let a = ctx.new_foreign(TAG_A, ForeignValue { fields: vec![7] });
    // a pointer to a cell of one class passes exactly its own tag check
    assert!(WrenCell::<ForeignValue>::is_type(ctx, Some(a), TAG_A));
    assert!(!WrenCell::<ForeignValue>::is_type(ctx, Some(a), TAG_B));
    assert!(!WrenCell::<ForeignValue>::is_type(ctx, Some(a), TAG_EMPTY));
    // a zero-sized payload behaves no differently
    let e = ctx.new_foreign(TAG_EMPTY, ForeignValue { fields: vec![] });
    assert!(WrenCell::<ForeignValue>::is_type(ctx, Some(e), TAG_EMPTY));
    assert!(!WrenCell::<ForeignValue>::is_type(ctx, Some(e), TAG_A));
    // a null pointer never passes
    assert!(!WrenCell::<ForeignValue>::is_type(ctx, None, TAG_A));
    // a dangling pointer never passes
    assert!(!WrenCell::<ForeignValue>::is_type(ctx, Some(99), TAG_A));
}

#[test]
fn test_from_ptr() {
    let mut vm = WrenBuilder::new().build();
    let ctx = vm.context();
    let a = ctx.new_foreign(TAG_A, ForeignValue { fields: vec![1, 2, 3, 4] });
    // the wrong tag is refused before any cast
    assert!(matches!(
        WrenCell::<ForeignValue>::from_ptr(ctx, Some(a), TAG_B),
        Err(WrenError::ForeignType)
    ));
    // the null pointer gets its own distinct error
    assert!(matches!(
        WrenCell::<ForeignValue>::from_ptr(ctx, None, TAG_A),
        Err(WrenError::NullPtr)
    ));
    // the right tag yields the cell
    {
        let cell = WrenCell::<ForeignValue>::from_ptr(ctx, Some(a), TAG_A).unwrap();
        assert_eq!(cell.borrow().fields, vec![1, 2, 3, 4]);
    }
    // mutation through the exclusive borrow is visible on the next read
    assert!(ctx.try_borrow_cell_mut(a).is_ok());
    ctx.cells[a].borrow_mut().fields = vec![2, 3, 4, 5];
    ctx.release_cell_mut(a);
    {
        let cell = WrenCell::<ForeignValue>::from_ptr(ctx, Some(a), TAG_A).unwrap();
        assert_eq!(cell.borrow().fields, vec![2, 3, 4, 5]);
    }
}

#[test]
fn test_cell_new_starts_available() {
    let cell = WrenCell::new(TAG_A, ForeignValue { fields: vec![9] });
    assert_eq!(cell.type_id, TAG_A);
    assert!(matches!(cell.flag, BorrowFlag::Available));
    assert_eq!(cell.borrow().fields, vec![9]);
}

#[test]
fn test_multiple_borrow() {
    // a mutable borrow aliased with any other borrow is a typed error,
    // never a panic
    let mut cell = WrenCell::new(TAG_A, ForeignValue { fields: vec![1] });
    assert!(cell.try_borrow_mut().is_ok());
    assert!(matches!(cell.try_borrow_mut(), Err(WrenError::BorrowMutError)));
    assert!(matches!(cell.try_borrow(), Err(WrenError::BorrowError)));
    cell.release_borrow_mut();
    // shared borrows coexist, and block the exclusive one
    assert!(cell.try_borrow().is_ok());
    assert!(cell.try_borrow().is_ok());
    assert!(matches!(cell.try_borrow_mut(), Err(WrenError::BorrowMutError)));
    cell.release_borrow();
    assert!(matches!(cell.try_borrow_mut(), Err(WrenError::BorrowMutError)));
    cell.release_borrow();
    assert!(cell.try_borrow_mut().is_ok());
}

#[test]
fn test_same_cell_as_receiver_and_argument() {
    // the same heap cell arriving twice in one call: the second borrow
    // reports the conflict
    let mut vm = WrenBuilder::new().build();
    let ctx = vm.context();
    let id = ctx.new_foreign(TAG_A, ForeignValue { fields: vec![5] });
    assert!(ctx.try_borrow_cell_mut(id).is_ok());
    assert!(matches!(ctx.try_borrow_cell(id), Err(WrenError::BorrowError)));
    ctx.release_cell_mut(id);
    assert!(ctx.try_borrow_cell(id).is_ok());
    ctx.release_cell(id);
}

#[test]
fn test_wren_cell_from_wren() {
    let mut vm = WrenBuilder::new().build();
    let ctx = vm.context();
    let id = ctx.new_foreign(TAG_B, ForeignValue { fields: vec![21] });
    ctx.ensure_slots(1);
    ctx.write_slot(0, SlotValue::Foreign(id));
    let cell = ctx.get_foreign_cell(0, TAG_B).unwrap();
    assert_eq!(cell.borrow().fields, vec![21]);
    assert!(matches!(ctx.get_foreign_cell(0, TAG_A), Err(WrenError::ForeignType)));
    assert!(matches!(ctx.get_foreign_cell(3, TAG_B), Err(WrenError::SlotOutOfBounds(3))));
    ctx.write_slot(0, SlotValue::Bool(true));
    assert!(matches!(ctx.get_foreign_cell(0, TAG_B), Err(WrenError::SlotType { .. })));
}
