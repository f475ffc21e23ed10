use ffi_bridge::declarations::{
    always_ready_declaration, fallible_me_declaration, greet_declaration,
    megaphone_say_after_declaration, new_megaphone_declaration, say_after_declaration,
    say_after_with_tokio_declaration, say_declaration, sleep_declaration, void_declaration,
};
use ffi_bridge::entries::{EntryKind, gen_fn_scaffolding, gen_method_scaffolding};
use ffi_bridge::signature::{Executor, classify};

#[test]
fn every_export_classifies() {
    for d in [
        greet_declaration(),
        always_ready_declaration(),
        void_declaration(),
        say_declaration(),
        say_after_declaration(),
        sleep_declaration(),
        new_megaphone_declaration(),
        megaphone_say_after_declaration(),
        say_after_with_tokio_declaration(),
        fallible_me_declaration(),
    ] {
        assert!(classify(&d).is_ok(), "{} must classify", d.name);
    }
}

#[test]
fn sync_exports_get_one_entry_each() {
    for d in [greet_declaration(), new_megaphone_declaration()] {
        let name = d.name.clone();
        let entries = gen_fn_scaffolding(&d).unwrap();
        assert_eq!(entries.len(), 1);
        assert_eq!(entries[0].kind, EntryKind::Invoke);
        assert_eq!(entries[0].symbol, name);
    }
}

#[test]
fn async_exports_get_their_three_entries() {
    for d in [
        always_ready_declaration(),
        void_declaration(),
        say_declaration(),
        say_after_declaration(),
        sleep_declaration(),
        say_after_with_tokio_declaration(),
        fallible_me_declaration(),
    ] {
        let name = d.name.clone();
        let entries = gen_fn_scaffolding(&d).unwrap();
        assert_eq!(entries.len(), 3);
        assert_eq!(entries[0].symbol, name);
        assert_eq!(entries[1].symbol, format!("{name}_poll"));
        assert_eq!(entries[2].symbol, format!("{name}_release"));
    }
}

#[test]
fn the_megaphone_method_goes_through_its_object() {
    let d = megaphone_say_after_declaration();
    let sig = classify(&d).unwrap();
    assert_eq!(sig.receiver.as_deref(), Some("Megaphone"));
    let entries = gen_method_scaffolding(&d).unwrap();
    assert_eq!(entries[0].symbol, "impl_Megaphone_say_after");
}

#[test]
fn the_tokio_export_selects_the_named_executor() {
    let sig = classify(&say_after_with_tokio_declaration()).unwrap();
    match sig.executor {
        Executor::Named(n) => assert_eq!(n, "tokio"),
        Executor::Default => panic!("the directive must select the named executor"),
    }
}

#[test]
fn the_fallible_export_declares_its_error_type() {
    let sig = classify(&fallible_me_declaration()).unwrap();
    assert_eq!(sig.throws.as_deref(), Some("MyError"));
    let entries = gen_fn_scaffolding(&fallible_me_declaration()).unwrap();
    for e in &entries {
        assert_eq!(e.throws.as_deref(), Some("MyError"));
    }
}
