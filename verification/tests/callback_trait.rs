use riff::callback_trait::{CallbackTrait, ReturnType, TraitMethod, TraitMethodParam};
use riff::model::{Primitive, Type};

#[test]
fn sync_and_async_methods_split_in_order() {
    let t = CallbackTrait::new("Listener")
        .with_doc("Receives events")
        .with_method(TraitMethod::new("on_a"))
        .with_method(TraitMethod::new("on_b").make_async())
        .with_method(TraitMethod::new("on_c"))
        .with_method(TraitMethod::new("on_d").make_async());
    assert_eq!(t.name, "Listener");
    assert_eq!(t.doc.as_deref(), Some("Receives events"));
    let sync: Vec<&str> = t.sync_methods().iter().map(|m| m.name.as_str()).collect();
    let asyncs: Vec<&str> = t.async_methods().iter().map(|m| m.name.as_str()).collect();
    assert_eq!(sync, vec!["on_a", "on_c"]);
    assert_eq!(asyncs, vec!["on_b", "on_d"]);
}

#[test]
fn return_kinds() {
    let void = TraitMethod::new("ping");
    assert!(!void.throws());
    assert!(!void.has_return());

    let value = TraitMethod::new("get")
        .with_param(TraitMethodParam::new("key", Type::String))
        .with_return(ReturnType::Value(Type::Primitive(Primitive::I32)));
    assert!(!value.throws());
    assert!(value.has_return());
    assert_eq!(value.inputs.len(), 1);
    assert_eq!(value.inputs[0].name, "key");

    let fallible = TraitMethod::new("save")
        .with_doc("Persists")
        .with_return(ReturnType::Fallible { ok: Type::Void, err: Type::String });
    assert!(fallible.throws());
    assert!(!fallible.has_return());
    assert_eq!(fallible.doc.as_deref(), Some("Persists"));
}
