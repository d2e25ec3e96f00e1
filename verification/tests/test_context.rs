//! Context operations: variables, modules, output, call results.
use rust_wren::errors::WrenError;
use rust_wren::handle::CallOutcome;
use rust_wren::runtime::write_function;
use rust_wren::types::{SlotValue, WrenInterpretResult, WrenType};
use rust_wren::vm::{InterpretOutcome, Variable, WrenBuilder};

fn ok_defs(defs: Vec<Variable>) -> InterpretOutcome {
    InterpretOutcome { code: WrenInterpretResult::Success, events: vec![], defs }
}

fn var(name: &str, value: SlotValue) -> Variable {
    Variable { name: name.to_string(), value }
}

#[test]
fn test_has_variable() {
    let mut vm = WrenBuilder::new().build();
    vm.interpret(
        "test_context",
        ok_defs(vec![
            var("One", SlotValue::Str("one".to_string())),
            var("Two", SlotValue::Num(2)),
        ]),
    )
    .expect("Interpret failed");
    let ctx = vm.context();
    assert!(ctx.has_var("test_context", "One"));
    assert!(ctx.has_var("test_context", "Two"));
    assert!(!ctx.has_var("test_context", "Three"));
    assert!(!ctx.has_var("unknown", "One"));
}

#[test]
fn test_variable_foreign_type() {
    let mut vm = WrenBuilder::new().build();
    {
        let ctx = vm.context();
        let id = ctx.new_foreign(7, rust_wren::class::ForeignValue { fields: vec![1] });
        ctx.set_var("test_context", "foo", SlotValue::Foreign(id));
    }
    let ctx = vm.context();
    let _h = ctx.get_var("test_context", "foo").expect("Interpret failed");
    assert_eq!(ctx.slot_type(0), Some(WrenType::Foreign));
}

#[test]
fn test_has_module() {
    let mut vm = WrenBuilder::new().build();
    vm.interpret("test_context", ok_defs(vec![])).expect("Interpret failed");
    assert!(vm.context().has_module("test_context"));
    assert!(!vm.context().has_module("unknown"));
}

#[test]
fn test_write_fn() {
    let mut vm = WrenBuilder::new().build();
    let ctx = vm.context();
    write_function(ctx, "a\n");
    write_function(ctx, "b\n");
    write_function(ctx, "c\n");
    let out = &ctx.user_data().output;
    assert_eq!(out.len(), 3);
    assert_eq!(out[0], "a\n");
    assert_eq!(out[1], "b\n");
    assert_eq!(out[2], "c\n");
}

#[test]
fn test_context_result() {
    let mut vm = WrenBuilder::new().build();
    vm.interpret(
        "test_context",
        ok_defs(vec![var("Foo", SlotValue::Str("class Foo".to_string()))]),
    )
    .expect("Interpret failed");
    let ctx = vm.context();
    // bar() returns nothing
    let call = ctx.make_call_ref("test_context", "Foo", "bar()").unwrap();
    let unit: () = call
        .call::<(), ()>(
            ctx,
            (),
            CallOutcome {
                code: WrenInterpretResult::Success,
                events: vec![],
                returned: SlotValue::Null,
            },
        )
        .unwrap();
    let _ = unit;
    // baz() returns 42
    let call = ctx.make_call_ref("test_context", "Foo", "baz()").unwrap();
    let n: i64 = call
        .call::<(), i64>(
            ctx,
            (),
            CallOutcome {
                code: WrenInterpretResult::Success,
                events: vec![],
                returned: SlotValue::Num(42),
            },
        )
        .unwrap();
    assert_eq!(n, 42);
    vm.maintain();
}

#[test]
fn test_context_result_fail() {
    let mut vm = WrenBuilder::new().build();
    vm.interpret(
        "test_context",
        ok_defs(vec![var("Foo", SlotValue::Str("class Foo".to_string()))]),
    )
    .expect("Interpret failed");
    let ctx = vm.context();
    match ctx.make_call_ref("test_context", "Undefined", "bar()") {
        Ok(_) => panic!("Unexpected success"),
        Err(WrenError::VariableNotFound(name)) => assert_eq!(name, "Undefined"),
        Err(err) => panic!("Unexpected error returned: {:?}", err),
    }
}

#[test]
fn test_ensure_slots_grows_and_keeps() {
    let mut vm = WrenBuilder::new().build();
    let ctx = vm.context();
    assert_eq!(ctx.slot_count(), 0);
    assert_eq!(ctx.slot_type(0), None);
    ctx.ensure_slots(3);
    assert_eq!(ctx.slot_count(), 3);
    assert_eq!(ctx.slot_type(2), Some(WrenType::Null));
    ctx.write_slot(1, SlotValue::Num(5));
    ctx.ensure_slots(2);
    assert_eq!(ctx.slot_count(), 3);
    assert_eq!(ctx.slot_type(1), Some(WrenType::Number));
}

#[test]
fn test_failed_interpret_defines_nothing() {
    // a compile failure leaves no module and no variables behind
    let mut vm = WrenBuilder::new().build();
    let _ = vm.interpret(
        "broken",
        InterpretOutcome {
            code: WrenInterpretResult::CompileError,
            events: vec![rust_wren::errors::WrenVmError::Compile {
                module: smol_str::SmolStr::new("broken"),
                message: "Expect expression.".to_string(),
                line: 1,
            }],
            defs: vec![Variable { name: "a".into(), value: SlotValue::Num(1) }],
        },
    );
    assert!(!vm.context().has_module("broken"));
    assert_eq!(vm.slot_count(), 0);
}

#[test]
fn test_interpret_defines_newest_wins() {
    let mut vm = WrenBuilder::new().build();
    vm.interpret(
        "m",
        ok_defs(vec![var("a", SlotValue::Num(1)), var("a", SlotValue::Num(2))]),
    )
    .expect("Interpret failed");
    let ctx = vm.context();
    let _h = ctx.get_var("m", "a").unwrap();
    assert_eq!(ctx.get_slot::<i64>(0).unwrap(), 2);
}
