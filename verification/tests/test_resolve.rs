//! Module resolution, loader paths, and the binding registry.
use rust_wren::class::WrenForeignClass;
use rust_wren::foreign::{ForeignClass, ForeignMethod};
use rust_wren::module::{FileModuleLoader, ModuleResolver, UnitModuleResolver};
use rust_wren::sig::validate_signature;
use rust_wren::vm::{ModuleBuilder, WrenBuilder};

#[test]
fn test_module_resolve() {
    let mut resolver = UnitModuleResolver::new();
    assert_eq!(resolver.resolve("module_2", "module_1"), Some("module_1".to_string()));
    assert_eq!(resolver.resolve("", "module_1"), Some("module_1".to_string()));
    assert_eq!(resolver.resolve_as_is("module_1"), Some("module_1".to_string()));
}

#[test]
fn test_loader_source_path() {
    let loader = FileModuleLoader::with_root("tests");
    assert_eq!(loader.source_path("module_1"), "tests/module_1.wren");
    // a name already suffixed is left alone
    assert_eq!(loader.source_path("module_1.wren"), "tests/module_1.wren");
    // short names get the suffix too
    assert_eq!(loader.source_path("m"), "tests/m.wren");
    assert_eq!(loader.root, "tests");
}

#[test]
fn test_signature_grammar() {
    assert!(validate_signature("foo()"));
    assert!(validate_signature("foo(_)"));
    assert!(validate_signature("foo(_,_)"));
    assert!(validate_signature("withArgs(_,_,_)"));
    assert!(validate_signature("snake_case_9()"));
    assert!(!validate_signature(""));
    assert!(!validate_signature("foo"));
    assert!(!validate_signature("()"));
    assert!(!validate_signature("foo("));
    assert!(!validate_signature("foo(,)"));
    assert!(!validate_signature("foo(_,)"));
    assert!(!validate_signature("foo(,_)"));
    assert!(!validate_signature("foo(__)"));
    assert!(!validate_signature("foo(_,_"));
    assert!(!validate_signature("foo()x"));
    assert!(!validate_signature("fo o()"));
}

struct Vector2;

impl WrenForeignClass for Vector2 {
    fn name() -> String {
        "Vector2".to_string()
    }

    fn type_tag() -> u64 {
        2001
    }

    fn register(bindings: &mut ModuleBuilder) {
        bindings.add_class_binding("Vector2", ForeignClass { allocate: 1, finalize: 2 });
        bindings.add_reverse_class_lookup(Self::type_tag(), "Vector2");
        bindings.add_method_binding(
            "Vector2",
            ForeignMethod { is_static: false, arity: 1, sig: "dot(_)".to_string(), func: 3 },
        );
    }
}

#[test]
fn test_registry_bindings() {
    let mut module = WrenBuilder::new().with_module("game");
    module.register::<Vector2>();
    let vm = module.done().build();
    let foreign = &vm.ctx.user.foreign;
    // the class binder finds what is registered, and only that
    let class = foreign.bind_foreign_class("game", "Vector2").unwrap();
    assert_eq!(class, ForeignClass { allocate: 1, finalize: 2 });
    assert!(foreign.bind_foreign_class("game", "Missing").is_none());
    assert!(foreign.bind_foreign_class("other", "Vector2").is_none());
    // the method binder resolves the full key
    assert_eq!(foreign.bind_foreign_method("game", "Vector2", false, "dot(_)"), Some(3));
    assert_eq!(foreign.bind_foreign_method("game", "Vector2", true, "dot(_)"), None);
    assert_eq!(foreign.bind_foreign_method("game", "Vector2", false, "cross(_)"), None);
    // the reverse index recovers the class key from the host tag
    let key = foreign.get_class_key(Vector2::type_tag()).unwrap();
    assert_eq!(key.module, "game");
    assert_eq!(key.class, "Vector2");
    assert!(foreign.get_class_key(9999).is_none());
}

#[test]
fn test_registry_overwrite() {
    // registering the same key again silently overwrites
    let mut builder = WrenBuilder::new().with_module("game");
    builder.add_class_binding("Sprite", ForeignClass { allocate: 1, finalize: 2 });
    builder.add_class_binding("Sprite", ForeignClass { allocate: 7, finalize: 8 });
    let vm = builder.done().build();
    let class = vm.ctx.user.foreign.bind_foreign_class("game", "Sprite").unwrap();
    assert_eq!(class, ForeignClass { allocate: 7, finalize: 8 });
}
