//! Handle lifetime: leaking, deferred release, calls through handles.
use rust_wren::errors::WrenError;
use rust_wren::handle::{CallOutcome, FnSymbolRef, WrenCallRef};
use rust_wren::runtime::{assert_all_deallocated, dump_allocations};
use rust_wren::types::{SlotValue, WrenInterpretResult};
use rust_wren::vm::{InterpretOutcome, Variable, WrenBuilder};

fn success(defs: Vec<(&str, SlotValue)>) -> InterpretOutcome {
    InterpretOutcome {
        code: WrenInterpretResult::Success,
        events: vec![],
        defs: defs
            .into_iter()
            .map(|(n, v)| Variable { name: n.to_string(), value: v })
            .collect(),
    }
}

fn plain_call(returned: SlotValue) -> CallOutcome {
    CallOutcome { code: WrenInterpretResult::Success, events: vec![], returned }
}

#[test]
fn test_wren_call() {
    let mut vm = WrenBuilder::new().build();
    vm.interpret("test_handle", success(vec![("TestHandle", SlotValue::Str("class".into()))]))
        .unwrap();
    let ctx = vm.context();
    let receiver = ctx.get_var("test_handle", "TestHandle").unwrap();
    let func = FnSymbolRef::compile(ctx, "withArgs(_,_,_)").unwrap();
    let call = WrenCallRef::new(receiver, func);
    // 5 + 7 + 9, computed on the script side
    let r: i64 = call.call::<(i64, i64, i64), i64>(ctx, (5, 7, 9), plain_call(SlotValue::Num(21))).unwrap();
    assert_eq!(r, 21);
    vm.maintain();
}

#[test]
fn test_foreign_call() {
    // a foreign receiver: the pinned variable holds a cell, and the
    // method's result comes back through slot zero
    let mut vm = WrenBuilder::new().build();
    {
        let ctx = vm.context();
        let id = ctx.new_foreign(3, rust_wren::class::ForeignValue { fields: vec![7] });
        ctx.set_var("test_handle", "m", SlotValue::Foreign(id));
    }
    let ctx = vm.context();
    let call = ctx.make_call_ref("test_handle", "m", "inner()").unwrap();
    let inner: i64 = call.call::<(), i64>(ctx, (), plain_call(SlotValue::Num(7))).unwrap();
    assert_eq!(inner, 7);
    vm.maintain();
}

#[test]
fn test_call_handle_with_arguments() {
    let mut vm = WrenBuilder::new().build();
    vm.interpret("test_handle", success(vec![("m", SlotValue::Num(11))])).unwrap();
    let one;
    let two;
    {
        let ctx = vm.context();
        one = ctx.make_call_ref("test_handle", "m", "one(_)").unwrap().leak().unwrap();
        two = ctx.make_call_ref("test_handle", "m", "two(_,_)").unwrap().leak().unwrap();
    }
    {
        let ctx = vm.context();
        // 11 + 7
        let r: i64 = one.call::<i64, i64>(ctx, 7, plain_call(SlotValue::Num(18))).unwrap();
        assert_eq!(r, 18);
        // 11 + 7 + 3
        let r: i64 = two.call::<(i64, i64), i64>(ctx, (7, 3), plain_call(SlotValue::Num(21))).unwrap();
        assert_eq!(r, 21);
    }
    {
        let ctx = vm.context();
        one.release(ctx);
        two.release(ctx);
    }
    vm.maintain();
}

#[test]
fn test_multiple_arg_passes() {
    // repeated calls through one reference: each call re-writes its own
    // arguments, and no slot contents leak from one call into the next
    let mut vm = WrenBuilder::new().build();
    vm.interpret("test_handle", success(vec![("Test", SlotValue::Str("class".into()))]))
        .unwrap();
    let ctx = vm.context();
    let call = ctx.make_call_ref("test_handle", "Test", "calc(_)").unwrap();
    for k in 1..5i64 {
        let r: i64 = call.call::<i64, i64>(ctx, k, plain_call(SlotValue::Num(k * k))).unwrap();
        assert_eq!(r, k * k);
    }
    vm.maintain();
}

#[test]
fn test_non_existing() {
    let mut vm = WrenBuilder::new().build();
    vm.interpret("test_handle", success(vec![])).unwrap();
    let ctx = vm.context();
    assert!(matches!(
        ctx.get_var("unknown", "x"),
        Err(WrenError::ModuleNotFound(m)) if m == "unknown"
    ));
    assert!(matches!(
        ctx.get_var("test_handle", "x"),
        Err(WrenError::VariableNotFound(n)) if n == "x"
    ));
}

#[test]
fn test_wren_ref_leak() {
    let mut vm = WrenBuilder::new().build();
    vm.interpret(
        "test_handle",
        success(vec![
            ("Test", SlotValue::Str("class".into())),
            ("a", SlotValue::Str("Foo".into())),
            ("b", SlotValue::Str("Bar".into())),
        ]),
    )
    .expect("Interpret failed");
    let handle;
    {
        let ctx = vm.context();
        let a_ref = ctx.get_var("test_handle", "a").unwrap();
        handle = a_ref.leak().unwrap();
    }
    {
        let ctx = vm.context();
        let unwrap_fn = ctx.make_call_ref("test_handle", "Test", "unwrap(_)").unwrap();
        let unwrapped_a: String = unwrap_fn
            .call::<&rust_wren::handle::WrenHandle, String>(
                ctx,
                &handle,
                plain_call(SlotValue::Str("Foo".into())),
            )
            .unwrap();
        assert_eq!(unwrapped_a.as_str(), "Foo");
        handle.release(ctx);
    }
    vm.maintain();
}

#[test]
fn test_wren_call_ref_leak() {
    let mut vm = WrenBuilder::new().build();
    vm.interpret("test_handle", success(vec![("Test", SlotValue::Str("class".into()))]))
        .expect("Interpret failed");
    let handle;
    {
        let ctx = vm.context();
        let call_ref = ctx.make_call_ref("test_handle", "Test", "calc(_)").unwrap();
        handle = call_ref.leak().unwrap();
    }
    {
        let ctx = vm.context();
        let r: i64 = handle.call::<i64, i64>(ctx, 4, plain_call(SlotValue::Num(16))).unwrap();
        assert_eq!(r, 16);
        handle.release(ctx);
    }
    vm.maintain();
}

#[test]
fn test_leak_once_then_already_leaked() {
    // the release right moves out exactly once: releasing first, then
    // trying to leak, fails with AlreadyLeaked and queues no second
    // release
    let mut vm = WrenBuilder::new().build();
    vm.interpret("test_handle", success(vec![("a", SlotValue::Num(1))])).unwrap();
    let ctx = vm.context();
    let mut a_ref = ctx.get_var("test_handle", "a").unwrap();
    a_ref.release(ctx);
    let queued = ctx.user_data().release_queue.len();
    assert!(matches!(a_ref.leak(), Err(WrenError::AlreadyLeaked)));
    assert_eq!(vm.context().user_data().release_queue.len(), queued);
    vm.maintain();
}

#[test]
fn test_leak_detection() {
    // an owned handle never released shows up in the leak diagnostics;
    // releasing it and servicing the queue clears them
    let mut vm = WrenBuilder::new().build();
    vm.interpret("test_handle", success(vec![("a", SlotValue::Num(42))])).unwrap();
    let leaked = {
        let ctx = vm.context();
        ctx.get_var("test_handle", "a").unwrap().leak().unwrap()
    };
    vm.maintain();
    let live = dump_allocations(&vm);
    assert_eq!(live, vec![leaked.handle]);
    {
        let ctx = vm.context();
        leaked.release(ctx);
    }
    vm.maintain();
    assert!(dump_allocations(&vm).is_empty());
    assert_all_deallocated(&vm);
}

#[test]
fn test_fiber_handle() {
    // a fiber is opaque data passed through as a handle, like any value
    let mut vm = WrenBuilder::new().build();
    vm.interpret("test_handle", success(vec![("fib", SlotValue::Str("Fiber.current".into()))]))
        .unwrap();
    let ctx = vm.context();
    let handle = ctx.get_var("test_handle", "fib").unwrap();
    assert!(handle.destructors.is_some());
    vm.maintain();
}

#[test]
fn test_property_as_receiver() {
    // a value fetched out of another object serves as a call receiver
    let mut vm = WrenBuilder::new().build();
    vm.interpret(
        "test_handle",
        success(vec![
            ("Outer", SlotValue::Str("class".into())),
            ("inner", SlotValue::Num(5)),
        ]),
    )
    .expect("Interpret failed");
    let ctx = vm.context();
    let call = ctx.make_call_ref("test_handle", "inner", "callme()").unwrap();
    let r: i64 = call.call::<(), i64>(ctx, (), plain_call(SlotValue::Num(5))).unwrap();
    assert_eq!(r, 5);
    vm.maintain();
}

#[test]
fn test_invalid_signature_is_result() {
    let mut vm = WrenBuilder::new().build();
    let ctx = vm.context();
    assert!(matches!(
        FnSymbolRef::compile(ctx, "not a signature"),
        Err(WrenError::InvalidSignature)
    ));
    assert!(matches!(
        FnSymbolRef::compile(ctx, "()"),
        Err(WrenError::InvalidSignature)
    ));
    assert!(FnSymbolRef::compile(ctx, "calc(_)").is_ok());
    assert!(FnSymbolRef::compile(ctx, "print()").is_ok());
    assert!(FnSymbolRef::compile(ctx, "withArgs(_,_,_)").is_ok());
}
