//! The error aggregation pipeline: queue events, drain into results.
use rust_wren::errors::{ForeignError, WrenError, WrenVmError};
use rust_wren::handle::CallOutcome;
use rust_wren::runtime::{error_function, WrenErrorKind};
use rust_wren::types::{SlotValue, WrenInterpretResult};
use rust_wren::vm::{InterpretOutcome, Variable, WrenBuilder};
use smol_str::SmolStr;

fn compile_event(module: &str, line: i32, message: &str) -> WrenVmError {
    WrenVmError::Compile {
        module: SmolStr::new(module),
        message: message.to_string(),
        line,
    }
}

#[test]
fn test_compile_error() {
    // an unterminated string literal: one diagnostic at its line
    let mut vm = WrenBuilder::new().build();
    let r = vm.interpret(
        "test_compile_error",
        InterpretOutcome {
            code: WrenInterpretResult::CompileError,
            events: vec![compile_event("test_compile_error", 3, "Unterminated string.")],
            defs: vec![],
        },
    );
    match r {
        Err(WrenError::CompileError(diags)) => {
            assert_eq!(diags.len(), 1);
            assert_eq!(diags[0].module.as_str(), "test_compile_error");
            assert_eq!(diags[0].line, 3);
            assert_eq!(diags[0].message, "Unterminated string.");
        }
        other => panic!("Unexpected result: {:?}", other),
    }
}

#[test]
fn test_two_syntax_errors_in_order() {
    // the compiler does not stop at the first error: both diagnostics
    // arrive, in source order
    let mut vm = WrenBuilder::new().build();
    let r = vm.interpret(
        "depend",
        InterpretOutcome {
            code: WrenInterpretResult::CompileError,
            events: vec![
                compile_event("depend", 1, "Error at 'var': Expect end of line."),
                compile_event("depend", 4, "Error at '}': Expect expression."),
            ],
            defs: vec![],
        },
    );
    match r {
        Err(WrenError::CompileError(diags)) => {
            assert_eq!(diags.len(), 2);
            assert_eq!(diags[0].line, 1);
            assert_eq!(diags[1].line, 4);
        }
        other => panic!("Unexpected result: {:?}", other),
    }
}

#[test]
fn test_runtime_error_shape() {
    // a script-level runtime failure: message, no foreign cause, frames
    // top first
    let mut vm = WrenBuilder::new().build();
    let r = vm.interpret(
        "m",
        InterpretOutcome {
            code: WrenInterpretResult::RuntimeError,
            events: vec![
                WrenVmError::Runtime { msg: "Null does not implement 'frob()'.".to_string() },
                WrenVmError::StackTrace {
                    module: SmolStr::new("m"),
                    function: SmolStr::new("top"),
                    line: 8,
                    is_foreign: false,
                },
                WrenVmError::StackTrace {
                    module: SmolStr::new("m"),
                    function: SmolStr::new("(script)"),
                    line: 12,
                    is_foreign: false,
                },
            ],
            defs: vec![],
        },
    );
    match r {
        Err(WrenError::RuntimeError { message, foreign, stack }) => {
            assert_eq!(message, "Null does not implement 'frob()'.");
            assert!(foreign.is_none());
            assert_eq!(stack.len(), 2);
            assert_eq!(stack[0].function.as_str(), "top");
            assert_eq!(stack[0].line, 8);
            assert_eq!(stack[1].line, 12);
            assert!(!stack[0].is_foreign);
        }
        other => panic!("Unexpected result: {:?}", other),
    }
}

#[test]
fn test_foreign_cause_round_trip() {
    // a bound host function that fails: its abort queues the cause, and
    // the drained result carries it as the foreign payload with a frame
    // marked foreign
    let mut vm = WrenBuilder::new().build();
    vm.interpret(
        "m",
        InterpretOutcome {
            code: WrenInterpretResult::Success,
            events: vec![],
            defs: vec![Variable { name: "obj".into(), value: SlotValue::Num(0) }],
        },
    )
    .unwrap();
    let ctx = vm.context();
    // the trampoline double-borrows its own receiver and aborts
    let id = ctx.new_foreign(9, rust_wren::class::ForeignValue { fields: vec![1] });
    assert!(ctx.try_borrow_cell_mut(id).is_ok());
    let conflict = match ctx.try_borrow_cell(id) {
        Err(e) => e,
        Ok(()) => panic!("expected a borrow conflict"),
    };
    assert!(matches!(conflict, WrenError::BorrowError));
    ctx.release_cell_mut(id);
    ctx.ensure_slots(1);
    let fe = ForeignError::Annotated {
        line: 4,
        module: "m".to_string(),
        inner: "Foreign class already borrowed.".to_string(),
    };
    fe.put(ctx, 0);
    error_function(ctx, WrenErrorKind::Runtime, "", 0, "Foreign class already borrowed.");
    let r = ctx.take_errors(WrenInterpretResult::RuntimeError);
    match r {
        Err(WrenError::RuntimeError { message, foreign, stack }) => {
            assert_eq!(message, "Foreign class already borrowed.");
            match foreign {
                Some(cause) => assert_eq!(cause.inner(), "Foreign class already borrowed."),
                None => panic!("foreign cause missing"),
            }
            assert_eq!(stack.len(), 1);
            assert!(stack[0].is_foreign);
            assert_eq!(stack[0].function.as_str(), "(foreign)");
            assert_eq!(stack[0].line, 4);
        }
        other => panic!("Unexpected result: {:?}", other),
    }
    vm.maintain();
}

#[test]
fn test_error_absent() {
    // a failure code with an empty queue is itself an error
    let mut vm = WrenBuilder::new().build();
    let r = vm.interpret(
        "m",
        InterpretOutcome {
            code: WrenInterpretResult::CompileError,
            events: vec![],
            defs: vec![],
        },
    );
    assert!(matches!(r, Err(WrenError::ErrorAbsent(WrenInterpretResult::CompileError))));
}

#[test]
fn test_result_queue_mismatch() {
    // a success code with queued events is itself an error
    let mut vm = WrenBuilder::new().build();
    let ctx = vm.context();
    error_function(ctx, WrenErrorKind::Runtime, "", 0, "stray");
    let r = ctx.take_errors(WrenInterpretResult::Success);
    assert!(matches!(r, Err(WrenError::ResultQueueMismatch)));
    // and the queue is drained either way
    assert!(ctx.user_data().errors.is_empty());
    assert!(ctx.take_errors(WrenInterpretResult::Success).is_ok());
}

#[test]
fn test_error_function_records_kinds() {
    let mut vm = WrenBuilder::new().build();
    let ctx = vm.context();
    error_function(ctx, WrenErrorKind::Compile, "mod", 7, "bad token");
    match &ctx.user_data().errors[0] {
        WrenVmError::Compile { module, message, line } => {
            assert_eq!(module.as_str(), "mod");
            assert_eq!(message, "bad token");
            assert_eq!(*line, 7);
        }
        other => panic!("Unexpected event: {:?}", other),
    }
    error_function(ctx, WrenErrorKind::StackTrace, "mod", 9, "main");
    match &ctx.user_data().errors[1] {
        WrenVmError::StackTrace { module, function, line, is_foreign } => {
            assert_eq!(module.as_str(), "mod");
            assert_eq!(function.as_str(), "main");
            assert_eq!(*line, 9);
            assert!(!is_foreign);
        }
        other => panic!("Unexpected event: {:?}", other),
    }
}

#[test]
fn test_call_failure_reads_no_result() {
    // a failed call yields the shaped error; the returned slot is never
    // consulted
    let mut vm = WrenBuilder::new().build();
    vm.interpret(
        "m",
        InterpretOutcome {
            code: WrenInterpretResult::Success,
            events: vec![],
            defs: vec![Variable { name: "Foo".into(), value: SlotValue::Str("class".into()) }],
        },
    )
    .unwrap();
    let ctx = vm.context();
    let call = ctx.make_call_ref("m", "Foo", "explode()").unwrap();
    let r: Result<i64, WrenError> = call.call::<(), i64>(
        ctx,
        (),
        CallOutcome {
            code: WrenInterpretResult::RuntimeError,
            events: vec![WrenVmError::Runtime { msg: "boom".to_string() }],
            returned: SlotValue::Null,
        },
    );
    match r {
        Err(e) => assert!(e.is_runtime_error()),
        Ok(_) => panic!("Result was not an error"),
    }
    vm.maintain();
}

#[test]
fn test_ref_return_type() {
    let mut vm = WrenBuilder::new().build();
    vm.interpret(
        "test_error",
        InterpretOutcome {
            code: WrenInterpretResult::Success,
            events: vec![],
            defs: vec![Variable { name: "Foo".into(), value: SlotValue::Str("class".into()) }],
        },
    )
    .unwrap();
    let ctx = vm.context();
    let call = ctx.make_call_ref("test_error", "Foo", "giveBool()").unwrap();
    let r: Result<String, WrenError> = call.call::<(), String>(
        ctx,
        (),
        CallOutcome {
            code: WrenInterpretResult::Success,
            events: vec![],
            returned: SlotValue::Bool(true),
        },
    );
    assert!(matches!(r, Err(WrenError::SlotType { .. })));
    vm.maintain();
}

#[test]
fn test_handle_return_type() {
    // any value can come back as a handle; the pinned value is the one
    // the call returned
    let mut vm = WrenBuilder::new().build();
    vm.interpret(
        "test_error",
        InterpretOutcome {
            code: WrenInterpretResult::Success,
            events: vec![],
            defs: vec![Variable { name: "Foo".into(), value: SlotValue::Str("class".into()) }],
        },
    )
    .unwrap();
    let ctx = vm.context();
    let call = ctx.make_call_ref("test_error", "Foo", "giveBool()").unwrap();
    let handle: rust_wren::handle::WrenRef = call
        .call::<(), rust_wren::handle::WrenRef>(
            ctx,
            (),
            CallOutcome {
                code: WrenInterpretResult::Success,
                events: vec![],
                returned: SlotValue::Bool(true),
            },
        )
        .expect("Context failed");
    match &ctx.handles[handle.handle].target {
        rust_wren::vm::HandleTarget::Value(SlotValue::Bool(true)) => {}
        other => panic!("Unexpected handle target: {:?}", other),
    }
    vm.maintain();
}

#[test]
fn test_invalid_args() {
    // a bound host function handed the wrong argument type: reading the
    // slot fails, the wrapped error aborts the fiber, and the drained
    // result carries it as the foreign cause
    let mut vm = WrenBuilder::new().build();
    let ctx = vm.context();
    ctx.ensure_slots(2);
    ctx.write_slot(1, SlotValue::Str("not a number".into()));
    let arg_err = match ctx.get_slot::<i64>(1) {
        Err(e) => e,
        Ok(_) => panic!("expected a slot type error"),
    };
    let wrapped = WrenError::new_foreign_call(
        "test_error_1(_)",
        Box::new(WrenError::GetArg { slot: 1, cause: Box::new(arg_err) }),
    );
    let fe = ForeignError::new(format!("{:?}", wrapped));
    fe.put(ctx, 0);
    error_function(ctx, WrenErrorKind::Runtime, "", 0, "arg error");
    let r = ctx.take_errors(WrenInterpretResult::RuntimeError);
    match r {
        Err(WrenError::RuntimeError { foreign: Some(_), .. }) => {}
        other => panic!("Unexpected result: {:?}", other),
    }
    vm.maintain();
}

#[test]
fn test_invalid_construct_args() {
    // `Foo.new(null)` on a numeric constructor: the allocate trampoline's
    // argument read fails with a type error naming null
    let mut vm = WrenBuilder::new().build();
    let ctx = vm.context();
    ctx.ensure_slots(2);
    ctx.write_slot(1, SlotValue::Null);
    let r = ctx.get_slot::<i64>(1);
    assert!(matches!(
        r,
        Err(WrenError::SlotType {
            expected: rust_wren::types::WrenType::Number,
            actual: rust_wren::types::WrenType::Null
        })
    ));
    vm.maintain();
}

#[test]
fn test_error_constructors() {
    let cause = Box::new(WrenError::ForeignType);
    let e = WrenError::new_foreign_call("frob(_)", cause);
    match &e {
        WrenError::ForeignCall { function, cause } => {
            assert_eq!(function.as_str(), "frob(_)");
            assert!(matches!(**cause, WrenError::ForeignType));
        }
        other => panic!("Unexpected error: {:?}", other),
    }
    assert!(!e.is_runtime_error());
    assert!(!e.is_compile_error());
    let g = WrenError::GetArg { slot: 1, cause: Box::new(WrenError::SlotOutOfBounds(1)) };
    assert!(matches!(g, WrenError::GetArg { slot: 1, .. }));
    let fe = ForeignError::new("it broke".to_string());
    assert_eq!(fe.inner(), "it broke");
    assert_eq!(fe.take_inner(), "it broke");
}
