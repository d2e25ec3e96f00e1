//! Slot value codec round trips and checked failures.
use rust_wren::errors::WrenError;
use rust_wren::types::{SlotValue, WrenInterpretResult, WrenType};
use rust_wren::value::ToWren;
use rust_wren::vm::{InterpretOutcome, Variable, WrenBuilder, WrenVm};

fn vm_with_var(module: &str, name: &str, value: SlotValue) -> WrenVm {
    let mut vm = WrenBuilder::new().build();
    vm.interpret(
        module,
        InterpretOutcome {
            code: WrenInterpretResult::Success,
            events: vec![],
            defs: vec![Variable { name: name.to_string(), value }],
        },
    )
    .expect("Interpret failed");
    vm
}

#[test]
fn test_round_trip_bool() {
    let mut vm = WrenBuilder::new().build();
    let ctx = vm.context();
    ctx.ensure_slots(1);
    true.put(ctx, 0);
    assert_eq!(ctx.get_slot::<bool>(0).unwrap(), true);
    false.put(ctx, 0);
    assert_eq!(ctx.get_slot::<bool>(0).unwrap(), false);
}

#[test]
fn test_round_trip_integers() {
    let mut vm = WrenBuilder::new().build();
    let ctx = vm.context();
    ctx.ensure_slots(1);
    (-113i8).put(ctx, 0);
    assert_eq!(ctx.get_slot::<i8>(0).unwrap(), -113);
    (-30000i16).put(ctx, 0);
    assert_eq!(ctx.get_slot::<i16>(0).unwrap(), -30000);
    2000000000i32.put(ctx, 0);
    assert_eq!(ctx.get_slot::<i32>(0).unwrap(), 2000000000);
    (-7i64).put(ctx, 0);
    assert_eq!(ctx.get_slot::<i64>(0).unwrap(), -7);
    255u8.put(ctx, 0);
    assert_eq!(ctx.get_slot::<u8>(0).unwrap(), 255);
    65535u16.put(ctx, 0);
    assert_eq!(ctx.get_slot::<u16>(0).unwrap(), 65535);
    4000000000u32.put(ctx, 0);
    assert_eq!(ctx.get_slot::<u32>(0).unwrap(), 4000000000);
    u64::MAX.put(ctx, 0);
    assert_eq!(ctx.get_slot::<u64>(0).unwrap(), u64::MAX);
}

#[test]
fn test_string() {
    let mut vm = vm_with_var("test_value", "s", SlotValue::Str("a string value".to_string()));
    let ctx = vm.context();
    let _handle = ctx.get_var("test_value", "s").expect("Interpret failed");
    // get_var also places the value in slot zero
    assert_eq!(ctx.get_slot::<String>(0).unwrap(), "a string value");
    // and a freshly written string reads back unchanged
    "written back".put(ctx, 0);
    assert_eq!(ctx.get_slot::<String>(0).unwrap(), "written back");
}

#[test]
fn test_unicode() {
    let mut vm = WrenBuilder::new().build();
    let ctx = vm.context();
    ctx.ensure_slots(1);
    let text = "odd ∑ymbols and ♥ graphemes";
    text.put(ctx, 0);
    assert_eq!(ctx.get_slot::<String>(0).unwrap(), text);
    let owned = String::from("πλάτων");
    owned.clone().put(ctx, 0);
    assert_eq!(ctx.get_slot::<String>(0).unwrap(), owned);
}

#[test]
fn test_nullable() {
    let mut vm = WrenBuilder::new().build();
    let ctx = vm.context();
    ctx.ensure_slots(1);
    // absent maps to null in both directions
    None::<i64>.put(ctx, 0);
    assert_eq!(ctx.slot_type(0), Some(WrenType::Null));
    assert_eq!(ctx.get_slot::<Option<i64>>(0).unwrap(), None);
    // present values pass through the element codec
    Some(42i64).put(ctx, 0);
    assert_eq!(ctx.get_slot::<Option<i64>>(0).unwrap(), Some(42));
    // reading null into a non-optional type is a type error
    None::<i64>.put(ctx, 0);
    let r = ctx.get_slot::<i64>(0);
    assert!(matches!(
        r,
        Err(WrenError::SlotType { expected: WrenType::Number, actual: WrenType::Null })
    ));
}

#[test]
fn test_slot_out_of_bounds() {
    let mut vm = WrenBuilder::new().build();
    let ctx = vm.context();
    ctx.ensure_slots(1);
    assert!(matches!(ctx.get_slot::<i64>(-1), Err(WrenError::SlotOutOfBounds(-1))));
    assert!(matches!(ctx.get_slot::<i64>(5), Err(WrenError::SlotOutOfBounds(5))));
}

#[test]
fn test_slot_type_mismatch() {
    let mut vm = WrenBuilder::new().build();
    let ctx = vm.context();
    ctx.ensure_slots(1);
    true.put(ctx, 0);
    let r = ctx.get_slot::<String>(0);
    assert!(matches!(
        r,
        Err(WrenError::SlotType { expected: WrenType::String, actual: WrenType::Bool })
    ));
}

#[test]
fn test_tuple_put_widths() {
    let mut vm = WrenBuilder::new().build();
    let ctx = vm.context();
    ctx.ensure_slots(4);
    (1i64, 2i64, 3i64).put(ctx, 1);
    assert_eq!(ctx.get_slot::<i64>(1).unwrap(), 1);
    assert_eq!(ctx.get_slot::<i64>(2).unwrap(), 2);
    assert_eq!(ctx.get_slot::<i64>(3).unwrap(), 3);
    assert_eq!((4i64, true).size_hint(), 2);
    assert_eq!((4i64, true, "x").size_hint(), 3);
}

#[test]
fn test_nested_tuples_flatten() {
    // wider argument lists nest: a pair of pairs occupies four
    // consecutive slots, exactly as a flat four-tuple would
    let mut vm = WrenBuilder::new().build();
    let ctx = vm.context();
    ctx.ensure_slots(5);
    ((1i64, 2i64), (3i64, 4i64)).put(ctx, 1);
    assert_eq!(ctx.get_slot::<i64>(1).unwrap(), 1);
    assert_eq!(ctx.get_slot::<i64>(2).unwrap(), 2);
    assert_eq!(ctx.get_slot::<i64>(3).unwrap(), 3);
    assert_eq!(ctx.get_slot::<i64>(4).unwrap(), 4);
    assert_eq!(((1i64, 2i64), (3i64, 4i64)).size_hint(), 4);
}
