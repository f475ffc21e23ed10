//! The declarations of this library's own exports, as records: what the
//! export attributes on the functions and methods of [`crate::exports`]
//! say, ready for the classifier and the boundary entry generator.

use vstd::prelude::*;
use vstd::string::StringExecFns;
use crate::abi::TypeTag;
use crate::signature::{
    Declaration, DeclarationV, ParamDecl, ParamDeclV, TypedParam, TypedParamV,
};

verus! {

/// A named value parameter.
fn typed_param(name: &str, ty: TypeTag) -> (p: ParamDecl)
    ensures
        p@ == ParamDeclV::Typed(TypedParamV { name: Some(name@), ty }),
{
    let p = ParamDecl::Typed(TypedParam { name: Some(name.to_owned()), ty });
    proof {
        assert(p@ =~~= ParamDeclV::Typed(TypedParamV { name: Some(name@), ty }));
    }
    p
}

/// A free asynchronous declaration with no parameters and no declared
/// error type.
fn nullary_async(name: &str, success: TypeTag) -> (d: Declaration)
    ensures
        d@ == (DeclarationV {
            name: name@,
            method_of: None,
            params: Seq::empty(),
            success,
            throws: None,
            is_async: true,
            async_runtime: None,
        }),
{
    let d = Declaration {
        name: name.to_owned(),
        method_of: None,
        params: Vec::new(),
        success,
        throws: None,
        is_async: true,
        async_runtime: None,
    };
    proof {
        assert(d@ =~~= (DeclarationV {
            name: name@,
            method_of: None,
            params: Seq::empty(),
            success,
            throws: None,
            is_async: true,
            async_runtime: None,
        }));
    }
    d
}

/// `greet`: synchronous, one text argument, a text answer.
pub fn greet_declaration() -> (d: Declaration)
    ensures
        d@ == (DeclarationV {
            name: "greet"@,
            method_of: None,
            params: seq![
                ParamDeclV::Typed(TypedParamV { name: Some("who"@), ty: TypeTag::Text }),
            ],
            success: TypeTag::Text,
            throws: None,
            is_async: false,
            async_runtime: None,
        }),
{
    let mut params: Vec<ParamDecl> = Vec::new();
    params.push(typed_param("who", TypeTag::Text));
    let d = Declaration {
        name: "greet".to_owned(),
        method_of: None,
        params,
        success: TypeTag::Text,
        throws: None,
        is_async: false,
        async_runtime: None,
    };
    proof {
        assert(d@ =~~= (DeclarationV {
            name: "greet"@,
            method_of: None,
            params: seq![
                ParamDeclV::Typed(TypedParamV { name: Some("who"@), ty: TypeTag::Text }),
            ],
            success: TypeTag::Text,
            throws: None,
            is_async: false,
            async_runtime: None,
        }));
    }
    d
}

/// `always_ready`: asynchronous, ready at once, a boolean answer.
pub fn always_ready_declaration() -> (d: Declaration)
    ensures
        d@ == (DeclarationV {
            name: "always_ready"@,
            method_of: None,
            params: Seq::empty(),
            success: TypeTag::Boolean,
            throws: None,
            is_async: true,
            async_runtime: None,
        }),
{
    nullary_async("always_ready", TypeTag::Boolean)
}

/// `void`: asynchronous, nothing in, nothing out.
pub fn void_declaration() -> (d: Declaration)
    ensures
        d@ == (DeclarationV {
            name: "void"@,
            method_of: None,
            params: Seq::empty(),
            success: TypeTag::Unit,
            throws: None,
            is_async: true,
            async_runtime: None,
        }),
{
    nullary_async("void", TypeTag::Unit)
}

/// `say`: asynchronous, a text answer after a fixed interval.
pub fn say_declaration() -> (d: Declaration)
    ensures
        d@ == (DeclarationV {
            name: "say"@,
            method_of: None,
            params: Seq::empty(),
            success: TypeTag::Text,
            throws: None,
            is_async: true,
            async_runtime: None,
        }),
{
    nullary_async("say", TypeTag::Text)
}

/// `say_after`: asynchronous, an interval and a name, a text answer.
pub fn say_after_declaration() -> (d: Declaration)
    ensures
        d@ == (DeclarationV {
            name: "say_after"@,
            method_of: None,
            params: seq![
                ParamDeclV::Typed(TypedParamV { name: Some("secs"@), ty: TypeTag::UInt8 }),
                ParamDeclV::Typed(TypedParamV { name: Some("who"@), ty: TypeTag::Text }),
            ],
            success: TypeTag::Text,
            throws: None,
            is_async: true,
            async_runtime: None,
        }),
{
    let mut params: Vec<ParamDecl> = Vec::new();
    params.push(typed_param("secs", TypeTag::UInt8));
    params.push(typed_param("who", TypeTag::Text));
    let d = Declaration {
        name: "say_after".to_owned(),
        method_of: None,
        params,
        success: TypeTag::Text,
        throws: None,
        is_async: true,
        async_runtime: None,
    };
    proof {
        assert(d@ =~~= (DeclarationV {
            name: "say_after"@,
            method_of: None,
            params: seq![
                ParamDeclV::Typed(TypedParamV { name: Some("secs"@), ty: TypeTag::UInt8 }),
                ParamDeclV::Typed(TypedParamV { name: Some("who"@), ty: TypeTag::Text }),
            ],
            success: TypeTag::Text,
            throws: None,
            is_async: true,
            async_runtime: None,
        }));
    }
    d
}

/// `sleep`: asynchronous, an interval, a boolean answer.
pub fn sleep_declaration() -> (d: Declaration)
    ensures
        d@ == (DeclarationV {
            name: "sleep"@,
            method_of: None,
            params: seq![
                ParamDeclV::Typed(TypedParamV { name: Some("secs"@), ty: TypeTag::UInt8 }),
            ],
            success: TypeTag::Boolean,
            throws: None,
            is_async: true,
            async_runtime: None,
        }),
{
    let mut params: Vec<ParamDecl> = Vec::new();
    params.push(typed_param("secs", TypeTag::UInt8));
    let d = Declaration {
        name: "sleep".to_owned(),
        method_of: None,
        params,
        success: TypeTag::Boolean,
        throws: None,
        is_async: true,
        async_runtime: None,
    };
    proof {
        assert(d@ =~~= (DeclarationV {
            name: "sleep"@,
            method_of: None,
            params: seq![
                ParamDeclV::Typed(TypedParamV { name: Some("secs"@), ty: TypeTag::UInt8 }),
            ],
            success: TypeTag::Boolean,
            throws: None,
            is_async: true,
            async_runtime: None,
        }));
    }
    d
}

/// `new_megaphone`: synchronous, no arguments, an exported object.
pub fn new_megaphone_declaration() -> (d: Declaration)
    ensures
        d@ == (DeclarationV {
            name: "new_megaphone"@,
            method_of: None,
            params: Seq::empty(),
            success: TypeTag::Object,
            throws: None,
            is_async: false,
            async_runtime: None,
        }),
{
    let d = Declaration {
        name: "new_megaphone".to_owned(),
        method_of: None,
        params: Vec::new(),
        success: TypeTag::Object,
        throws: None,
        is_async: false,
        async_runtime: None,
    };
    proof {
        assert(d@ =~~= (DeclarationV {
            name: "new_megaphone"@,
            method_of: None,
            params: Seq::empty(),
            success: TypeTag::Object,
            throws: None,
            is_async: false,
            async_runtime: None,
        }));
    }
    d
}

/// The megaphone's `say_after`: asynchronous, in the object's method
/// block, the receiver first.
pub fn megaphone_say_after_declaration() -> (d: Declaration)
    ensures
        d@ == (DeclarationV {
            name: "say_after"@,
            method_of: Some("Megaphone"@),
            params: seq![
                ParamDeclV::Receiver,
                ParamDeclV::Typed(TypedParamV { name: Some("secs"@), ty: TypeTag::UInt8 }),
                ParamDeclV::Typed(TypedParamV { name: Some("who"@), ty: TypeTag::Text }),
            ],
            success: TypeTag::Text,
            throws: None,
            is_async: true,
            async_runtime: None,
        }),
{
    let mut params: Vec<ParamDecl> = Vec::new();
    params.push(ParamDecl::Receiver);
    params.push(typed_param("secs", TypeTag::UInt8));
    params.push(typed_param("who", TypeTag::Text));
    let d = Declaration {
        name: "say_after".to_owned(),
        method_of: Some("Megaphone".to_owned()),
        params,
        success: TypeTag::Text,
        throws: None,
        is_async: true,
        async_runtime: None,
    };
    proof {
        assert(d@ =~~= (DeclarationV {
            name: "say_after"@,
            method_of: Some("Megaphone"@),
            params: seq![
                ParamDeclV::Receiver,
                ParamDeclV::Typed(TypedParamV { name: Some("secs"@), ty: TypeTag::UInt8 }),
                ParamDeclV::Typed(TypedParamV { name: Some("who"@), ty: TypeTag::Text }),
            ],
            success: TypeTag::Text,
            throws: None,
            is_async: true,
            async_runtime: None,
        }));
    }
    d
}

/// `say_after_with_tokio`: asynchronous, with the directive that selects
/// the named alternate executor.
pub fn say_after_with_tokio_declaration() -> (d: Declaration)
    ensures
        d@ == (DeclarationV {
            name: "say_after_with_tokio"@,
            method_of: None,
            params: seq![
                ParamDeclV::Typed(TypedParamV { name: Some("secs"@), ty: TypeTag::UInt8 }),
                ParamDeclV::Typed(TypedParamV { name: Some("who"@), ty: TypeTag::Text }),
            ],
            success: TypeTag::Text,
            throws: None,
            is_async: true,
            async_runtime: Some("tokio"@),
        }),
{
    let mut params: Vec<ParamDecl> = Vec::new();
    params.push(typed_param("secs", TypeTag::UInt8));
    params.push(typed_param("who", TypeTag::Text));
    let d = Declaration {
        name: "say_after_with_tokio".to_owned(),
        method_of: None,
        params,
        success: TypeTag::Text,
        throws: None,
        is_async: true,
        async_runtime: Some("tokio".to_owned()),
    };
    proof {
        assert(d@ =~~= (DeclarationV {
            name: "say_after_with_tokio"@,
            method_of: None,
            params: seq![
                ParamDeclV::Typed(TypedParamV { name: Some("secs"@), ty: TypeTag::UInt8 }),
                ParamDeclV::Typed(TypedParamV { name: Some("who"@), ty: TypeTag::Text }),
            ],
            success: TypeTag::Text,
            throws: None,
            is_async: true,
            async_runtime: Some("tokio"@),
        }));
    }
    d
}

/// `fallible_me`: asynchronous, one boolean argument, a byte answer, and
/// the one declared error type.
pub fn fallible_me_declaration() -> (d: Declaration)
    ensures
        d@ == (DeclarationV {
            name: "fallible_me"@,
            method_of: None,
            params: seq![
                ParamDeclV::Typed(TypedParamV { name: Some("do_fail"@), ty: TypeTag::Boolean }),
            ],
            success: TypeTag::UInt8,
            throws: Some("MyError"@),
            is_async: true,
            async_runtime: None,
        }),
{
    let mut params: Vec<ParamDecl> = Vec::new();
    params.push(typed_param("do_fail", TypeTag::Boolean));
    let d = Declaration {
        name: "fallible_me".to_owned(),
        method_of: None,
        params,
        success: TypeTag::UInt8,
        throws: Some("MyError".to_owned()),
        is_async: true,
        async_runtime: None,
    };
    proof {
        assert(d@ =~~= (DeclarationV {
            name: "fallible_me"@,
            method_of: None,
            params: seq![
                ParamDeclV::Typed(TypedParamV { name: Some("do_fail"@), ty: TypeTag::Boolean }),
            ],
            success: TypeTag::UInt8,
            throws: Some("MyError"@),
            is_async: true,
            async_runtime: None,
        }));
    }
    d
}

} // verus!
