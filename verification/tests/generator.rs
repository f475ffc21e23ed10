use ffi_bridge::AbiShape;
use ffi_bridge::abi::TypeTag;
use ffi_bridge::entries::{EntryKind, gen_fn_scaffolding, gen_method_scaffolding,
    collect_params};
use ffi_bridge::signature::{
    ClassifyError, Declaration, Executor, ParamDecl, TypedParam, classify, is_receiver,
};

fn typed(name: &str, ty: TypeTag) -> ParamDecl {
    ParamDecl::Typed(TypedParam { name: Some(name.to_string()), ty })
}

fn free_decl(name: &str) -> Declaration {
    Declaration {
        name: name.to_string(),
        method_of: None,
        params: vec![],
        success: TypeTag::Unit,
        throws: None,
        is_async: false,
        async_runtime: None,
    }
}

#[test]
fn receiver_recognition() {
    assert!(is_receiver(&ParamDecl::Receiver));
    assert!(!is_receiver(&typed("who", TypeTag::Text)));
}

#[test]
fn classify_free_function() {
    let mut d = free_decl("greet");
    d.params = vec![typed("who", TypeTag::Text)];
    d.success = TypeTag::Text;
    let sig = classify(&d).unwrap();
    assert_eq!(sig.name, "greet");
    assert!(sig.receiver.is_none());
    assert_eq!(sig.params.len(), 1);
    assert_eq!(sig.params[0].ty, TypeTag::Text);
    assert_eq!(sig.params[0].name.as_deref(), Some("who"));
    assert!(!sig.is_async);
    assert!(matches!(sig.executor, Executor::Default));
}

#[test]
fn classify_method_drops_receiver_from_params() {
    let d = Declaration {
        name: "say_after".to_string(),
        method_of: Some("Megaphone".to_string()),
        params: vec![
            ParamDecl::Receiver,
            typed("secs", TypeTag::UInt8),
            typed("who", TypeTag::Text),
        ],
        success: TypeTag::Text,
        throws: None,
        is_async: true,
        async_runtime: None,
    };
    let sig = classify(&d).unwrap();
    assert_eq!(sig.receiver.as_deref(), Some("Megaphone"));
    assert_eq!(sig.params.len(), 2);
    assert_eq!(sig.params[0].name.as_deref(), Some("secs"));
    assert_eq!(sig.params[1].name.as_deref(), Some("who"));
}

#[test]
fn classify_rejects_misplaced_receiver() {
    let d = Declaration {
        name: "oops".to_string(),
        method_of: Some("Megaphone".to_string()),
        params: vec![ParamDecl::Receiver, typed("x", TypeTag::UInt8), ParamDecl::Receiver],
        success: TypeTag::Unit,
        throws: None,
        is_async: false,
        async_runtime: None,
    };
    assert_eq!(classify(&d).unwrap_err(), ClassifyError::MisplacedReceiver);
}

#[test]
fn classify_rejects_receiver_outside_method_block() {
    let mut d = free_decl("oops");
    d.params = vec![ParamDecl::Receiver];
    assert_eq!(classify(&d).unwrap_err(), ClassifyError::ReceiverOutsideMethod);
}

#[test]
fn classify_rejects_associated_function() {
    let d = Declaration {
        name: "make".to_string(),
        method_of: Some("Megaphone".to_string()),
        params: vec![typed("x", TypeTag::UInt8)],
        success: TypeTag::Object,
        throws: None,
        is_async: false,
        async_runtime: None,
    };
    assert_eq!(classify(&d).unwrap_err(), ClassifyError::AssociatedFunction);
}

#[test]
fn classify_rejects_directive_on_sync() {
    let mut d = free_decl("greet");
    d.async_runtime = Some("tokio".to_string());
    assert_eq!(classify(&d).unwrap_err(), ClassifyError::DirectiveOnSync);
}

#[test]
fn classify_accepts_directive_on_async() {
    let mut d = free_decl("say_after_with_tokio");
    d.params = vec![typed("secs", TypeTag::UInt8), typed("who", TypeTag::Text)];
    d.success = TypeTag::Text;
    d.is_async = true;
    d.async_runtime = Some("tokio".to_string());
    let sig = classify(&d).unwrap();
    match sig.executor {
        Executor::Named(n) => assert_eq!(n, "tokio"),
        Executor::Default => panic!("the directive must select the named executor"),
    }
}

#[test]
fn sync_signature_gets_one_entry() {
    let mut d = free_decl("greet");
    d.params = vec![typed("who", TypeTag::Text)];
    d.success = TypeTag::Text;
    let entries = gen_fn_scaffolding(&d).unwrap();
    assert_eq!(entries.len(), 1);
    assert_eq!(entries[0].kind, EntryKind::Invoke);
    assert_eq!(entries[0].symbol, "greet");
    assert_eq!(entries[0].arg_shapes, vec![AbiShape::Buffer]);
    assert_eq!(entries[0].success, TypeTag::Text);
    assert_eq!(entries[0].throws, None);
}

#[test]
fn async_signature_gets_invoke_poll_release() {
    let mut d = free_decl("fallible_me");
    d.params = vec![typed("do_fail", TypeTag::Boolean)];
    d.success = TypeTag::UInt8;
    d.throws = Some("MyError".to_string());
    d.is_async = true;
    let entries = gen_fn_scaffolding(&d).unwrap();
    assert_eq!(entries.len(), 3);
    assert_eq!(entries[0].kind, EntryKind::Invoke);
    assert_eq!(entries[0].symbol, "fallible_me");
    assert_eq!(entries[0].arg_shapes, vec![AbiShape::Scalar]);
    assert_eq!(entries[1].kind, EntryKind::Poll);
    assert_eq!(entries[1].symbol, "fallible_me_poll");
    assert_eq!(
        entries[1].arg_shapes,
        vec![AbiShape::Handle, AbiShape::Scalar, AbiShape::Scalar]
    );
    assert_eq!(entries[2].kind, EntryKind::Release);
    assert_eq!(entries[2].symbol, "fallible_me_release");
    assert_eq!(entries[2].arg_shapes, vec![AbiShape::Handle]);
    // The poll/release pair is specialized to the signature's types.
    for e in &entries {
        assert_eq!(e.success, TypeTag::UInt8);
        assert_eq!(e.throws, Some("MyError".to_string()));
    }
}

#[test]
fn method_entries_take_the_receiver_handle_first() {
    let d = Declaration {
        name: "say_after".to_string(),
        method_of: Some("Megaphone".to_string()),
        params: vec![
            ParamDecl::Receiver,
            typed("secs", TypeTag::UInt8),
            typed("who", TypeTag::Text),
        ],
        success: TypeTag::Text,
        throws: None,
        is_async: true,
        async_runtime: None,
    };
    let entries = gen_method_scaffolding(&d).unwrap();
    assert_eq!(entries.len(), 3);
    assert_eq!(entries[0].symbol, "impl_Megaphone_say_after");
    assert_eq!(
        entries[0].arg_shapes,
        vec![AbiShape::Handle, AbiShape::Scalar, AbiShape::Buffer]
    );
    assert_eq!(entries[1].symbol, "impl_Megaphone_say_after_poll");
    assert_eq!(entries[2].symbol, "impl_Megaphone_say_after_release");
}

#[test]
fn scaffolding_reports_classification_errors() {
    let mut d = free_decl("greet");
    d.async_runtime = Some("tokio".to_string());
    assert_eq!(gen_fn_scaffolding(&d).unwrap_err(), ClassifyError::DirectiveOnSync);
}

#[test]
fn param_shapes_in_order() {
    let params = vec![
        TypedParam { name: None, ty: TypeTag::Text },
        TypedParam { name: None, ty: TypeTag::Boolean },
        TypedParam { name: None, ty: TypeTag::Object },
    ];
    let shapes = collect_params(&params);
    assert_eq!(shapes, vec![AbiShape::Buffer, AbiShape::Scalar, AbiShape::Handle]);
}

#[test]
fn classification_is_deterministic() {
    let mut d = free_decl("greet");
    d.params = vec![typed("who", TypeTag::Text)];
    let a = classify(&d).unwrap();
    let b = classify(&d).unwrap();
    assert_eq!(a.name, b.name);
    assert_eq!(a.params.len(), b.params.len());
    assert_eq!(a.is_async, b.is_async);
}
