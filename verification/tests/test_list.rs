//! List handles: building, indexed access, bulk copy-out, bounds.
use rust_wren::errors::WrenError;
use rust_wren::list::WrenList;
use rust_wren::types::{SlotValue, WrenInterpretResult, WrenType};
use rust_wren::value::ToWren;
use rust_wren::vm::{InterpretOutcome, WrenBuilder};

#[test]
fn test_vec_from_wren() {
    // a list argument travels into a bound static method together with
    // plain numbers: `Foo.convert(7, [1…10], 11)` seen from the
    // trampoline's side
    let mut vm = WrenBuilder::new().build();
    let ctx = vm.context();
    let list = WrenList::from_vec(ctx, vec![1i64, 2, 3, 4, 5, 6, 7, 8, 9, 10]).unwrap();
    ctx.ensure_slots(4);
    (7i64, &list.handle, 11i64).put(ctx, 1);
    assert_eq!(ctx.get_slot::<i64>(1).unwrap(), 7);
    let seen: WrenList = ctx.get_slot::<WrenList>(2).expect("Call convert failed");
    let elems: Vec<i64> = seen.to_vec::<i64>(ctx).unwrap();
    assert_eq!(elems, vec![1, 2, 3, 4, 5, 6, 7, 8, 9, 10]);
    assert_eq!(ctx.get_slot::<i64>(3).unwrap(), 11);
    vm.maintain();
}

#[test]
fn test_vec_to_wren() {
    let mut vm = WrenBuilder::new().build();
    let ctx = vm.context();
    let list = WrenList::from_vec(ctx, vec![1i64, 2, 3]).unwrap();
    assert_eq!(list.len(ctx), 3);
    assert_eq!(list.get::<i64>(ctx, 0).unwrap(), Some(1));
    assert_eq!(list.get::<i64>(ctx, 1).unwrap(), Some(2));
    assert_eq!(list.get::<i64>(ctx, 2).unwrap(), Some(3));
    vm.maintain();
}

#[test]
fn test_list_handle_push() {
    let mut vm = WrenBuilder::new().build();
    let ctx = vm.context();
    let mut list = WrenList::new(ctx);
    assert!(list.is_empty(ctx));
    list.push(ctx, 99i64);
    list.push(ctx, "added element");
    assert_eq!(list.len(ctx), 2);
    assert!(!list.is_empty(ctx));
    assert_eq!(list.get::<i64>(ctx, 0).unwrap(), Some(99));
    assert_eq!(list.get::<String>(ctx, 1).unwrap().unwrap(), "added element");
    vm.maintain();
}

#[test]
fn test_list_to_vec() {
    let mut vm = WrenBuilder::new().build();
    vm.interpret(
        "test_list",
        InterpretOutcome {
            code: WrenInterpretResult::Success,
            events: vec![],
            defs: vec![],
        },
    )
    .unwrap();
    let ctx = vm.context();
    let mut list = WrenList::new(ctx);
    list.push(ctx, "spruce");
    list.push(ctx, "maple");
    list.push(ctx, "willow");
    let trees: Vec<String> = list.to_vec::<String>(ctx).expect("Context error");
    assert_eq!(trees, vec!["spruce", "maple", "willow"]);
    // a mixed list aborts eagerly on the first unconvertible element
    list.push(ctx, 5i64);
    assert!(matches!(
        list.to_vec::<String>(ctx),
        Err(WrenError::SlotType { expected: WrenType::String, actual: WrenType::Number })
    ));
    vm.maintain();
}

#[test]
fn test_list_clone_to() {
    let mut vm = WrenBuilder::new().build();
    let ctx = vm.context();
    let mut list = WrenList::new(ctx);
    list.push(ctx, "spruce");
    list.push(ctx, "maple");
    list.push(ctx, "willow");
    // a larger buffer keeps its tail
    let mut buf: Vec<String> = vec![String::new(), String::new(), String::new(), "kept".into()];
    let copied = list.clone_to::<String>(ctx, &mut buf).expect("Context error");
    assert_eq!(copied, 3);
    assert_eq!(buf, vec!["spruce", "maple", "willow", "kept"]);
    // a smaller buffer bounds the copy
    let mut small: Vec<String> = vec![String::new(), String::new()];
    let copied = list.clone_to::<String>(ctx, &mut small).expect("Context error");
    assert_eq!(copied, 2);
    assert_eq!(small, vec!["spruce", "maple"]);
    // a conversion failure leaves the buffer untouched
    let mut nums: Vec<i64> = vec![7, 8, 9];
    assert!(list.clone_to::<i64>(ctx, &mut nums).is_err());
    assert_eq!(nums, vec![7, 8, 9]);
    vm.maintain();
}

#[test]
fn test_list_get_out_of_bounds() {
    // an index at or past the end is a defined, empty outcome and no
    // slot is corrupted
    let mut vm = WrenBuilder::new().build();
    let ctx = vm.context();
    let mut list = WrenList::new(ctx);
    list.push(ctx, 1i64);
    assert_eq!(list.get::<i64>(ctx, 1).unwrap(), None);
    assert_eq!(list.get::<i64>(ctx, 1000).unwrap(), None);
    assert_eq!(list.get::<i64>(ctx, 0).unwrap(), Some(1));
    vm.maintain();
}

#[test]
fn test_list_set_replaces() {
    let mut vm = WrenBuilder::new().build();
    let ctx = vm.context();
    let mut list = WrenList::from_vec(ctx, vec![10i64, 20, 30]).unwrap();
    list.set(ctx, 1, 99i64);
    let out: Vec<i64> = list.to_vec::<i64>(ctx).unwrap();
    assert_eq!(out, vec![10, 99, 30]);
    vm.maintain();
}

#[test]
fn test_get_list_variable() {
    let mut vm = WrenBuilder::new().build();
    // a list defined by a successful run, then fetched by name
    {
        let ctx = vm.context();
        let list = WrenList::from_vec(ctx, vec![1i64, 2, 3]).unwrap();
        let id = match &ctx.handles[list.handle.handle].target {
            rust_wren::vm::HandleTarget::Value(v) => v.clone(),
            _ => unreachable!(),
        };
        ctx.set_var("test_list", "x", id);
    }
    let ctx = vm.context();
    let list = ctx.get_list("test_list", "x").unwrap();
    assert_eq!(list.len(ctx), 3);
    // a non-list variable is a type error
    ctx.set_var("test_list", "n", SlotValue::Num(1));
    assert!(matches!(
        ctx.get_list("test_list", "n"),
        Err(WrenError::SlotType { expected: WrenType::List, actual: WrenType::Number })
    ));
    assert!(matches!(
        ctx.get_list("test_list", "missing"),
        Err(WrenError::VariableNotFound(_))
    ));
    vm.maintain();
}

#[test]
fn test_list_handle() {
    // two handles to one list observe each other's pushes: handles are
    // references, not copies
    let mut vm = WrenBuilder::new().build();
    let ctx = vm.context();
    let mut a = WrenList::new(ctx);
    ctx.set_var("m", "shared", SlotValue::List(0));
    let b = ctx.get_list("m", "shared").unwrap();
    a.push(ctx, 5i64);
    assert_eq!(b.len(ctx), 1);
    assert_eq!(b.get::<i64>(ctx, 0).unwrap(), Some(5));
    vm.maintain();
}
