//! End-to-end scenarios: the host and the simulated script together.
use rust_wren::class::{ForeignValue, WrenForeignClass};
use rust_wren::foreign::{ForeignClass, ForeignMethod};
use rust_wren::list::WrenList;
use rust_wren::types::SlotValue;
use rust_wren::value::{put_result, ToWren};
use rust_wren::vm::{ModuleBuilder, WrenBuilder, WrenContext};

struct Vec2;

impl WrenForeignClass for Vec2 {
    fn name() -> String {
        "Vec2".to_string()
    }

    fn type_tag() -> u64 {
        42
    }

    fn register(bindings: &mut ModuleBuilder) {
        bindings.add_class_binding("Vec2", ForeignClass { allocate: 10, finalize: 11 });
        bindings.add_reverse_class_lookup(Self::type_tag(), "Vec2");
        bindings.add_method_binding(
            "Vec2",
            ForeignMethod { is_static: false, arity: 1, sig: "dot(_)".to_string(), func: 12 },
        );
    }
}

/// The allocate trampoline of `Vec2`: construct a cell from the two
/// numeric arguments the script passed.
fn vec2_allocate(ctx: &mut WrenContext) -> usize {
    let x = ctx.get_slot::<i64>(1).unwrap();
    let y = ctx.get_slot::<i64>(2).unwrap();
    ctx.new_foreign(Vec2::type_tag(), ForeignValue { fields: vec![x, y] })
}

/// The `dot(_)` trampoline: receiver in slot zero, argument in slot one,
/// result written back through the result slot.
fn vec2_dot(ctx: &mut WrenContext) {
    let (ax, ay) = {
        let cell = ctx.get_foreign_cell(0, Vec2::type_tag()).unwrap();
        (cell.borrow().fields[0], cell.borrow().fields[1])
    };
    let (bx, by) = {
        let cell = ctx.get_foreign_cell(1, Vec2::type_tag()).unwrap();
        (cell.borrow().fields[0], cell.borrow().fields[1])
    };
    put_result(Ok(ax * bx + ay * by), ctx, 0);
}

#[test]
fn test_dot_product() {
    // a two-field numeric foreign class: construct two instances as the
    // script's constructor would, call the method, expect the exact
    // number
    let mut module = WrenBuilder::new().with_module("game");
    module.register::<Vec2>();
    let mut vm = module.done().build();
    let ctx = vm.context();
    // the binder resolves what the script's `Vec2.new(…)` needs
    assert!(ctx.user_data().foreign.bind_foreign_class("game", "Vec2").is_some());
    // construct Vec2.new(2, 3) and Vec2.new(4, 5)
    ctx.ensure_slots(3);
    let v1 = {
        ctx.write_slot(1, SlotValue::Num(2));
        ctx.write_slot(2, SlotValue::Num(3));
        vec2_allocate(ctx)
    };
    let v2 = {
        ctx.write_slot(1, SlotValue::Num(4));
        ctx.write_slot(2, SlotValue::Num(5));
        vec2_allocate(ctx)
    };
    // the script calls v1.dot(v2)
    ctx.write_slot(0, SlotValue::Foreign(v1));
    ctx.write_slot(1, SlotValue::Foreign(v2));
    vec2_dot(ctx);
    assert_eq!(ctx.get_slot::<i64>(0).unwrap(), 2 * 4 + 3 * 5);
    vm.maintain();
}

#[test]
fn test_list_into_static_method() {
    // build a list from host code, push three numeric values, hand it to
    // a script method: the script sees exactly those elements
    let mut vm = WrenBuilder::new().build();
    let ctx = vm.context();
    let mut list = WrenList::new(ctx);
    list.push(ctx, 10i64);
    list.push(ctx, 20i64);
    list.push(ctx, 30i64);
    // passing the handle writes the list itself into the argument slot
    ctx.ensure_slots(2);
    (&list.handle).put(ctx, 1);
    let seen = ctx.get_slot::<WrenList>(1).unwrap();
    let elems: Vec<i64> = seen.to_vec::<i64>(ctx).unwrap();
    assert_eq!(elems, vec![10, 20, 30]);
    vm.maintain();
}
