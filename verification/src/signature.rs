//! The signature classifier: from one exported declaration to the
//! signature record the boundary entry generator works from.
//!
//! Classification is a pure function of the declaration; the same
//! declaration always yields the same record. A declaration is rejected at
//! generation time — never at the running boundary — when a receiver
//! stands anywhere but first, when a function inside an object's method
//! block takes no receiver, or when an executor-selection directive sits
//! on a synchronous declaration.

use vstd::prelude::*;
use crate::abi::TypeTag;

verus! {

/// One value parameter of a declaration: its optional name and its
/// semantic type.
#[derive(Debug)]
pub struct TypedParam {
    pub name: Option<String>,
    pub ty: TypeTag,
}

/// The mathematical model of a value parameter.
#[verifier::ext_equal]
pub struct TypedParamV {
    pub name: Option<Seq<char>>,
    pub ty: TypeTag,
}

impl View for TypedParam {
    type V = TypedParamV;

    open spec fn view(&self) -> TypedParamV {
        TypedParamV {
            name: match &self.name {
                Some(n) => Some(n@),
                None => None,
            },
            ty: self.ty,
        }
    }
}

impl TypedParam {
    /// An equal parameter record.
    pub fn duplicate(&self) -> (r: Self)
        ensures
            r@ == self@,
    {
        TypedParam {
            name: match &self.name {
                Some(n) => Some(n.clone()),
                None => None,
            },
            ty: self.ty,
        }
    }
}

/// One parameter as declared: the receiver, or a value parameter.
#[derive(Debug)]
pub enum ParamDecl {
    Receiver,
    Typed(TypedParam),
}

/// The mathematical model of a declared parameter.
#[verifier::ext_equal]
pub enum ParamDeclV {
    Receiver,
    Typed(TypedParamV),
}

impl View for ParamDecl {
    type V = ParamDeclV;

    open spec fn view(&self) -> ParamDeclV {
        match self {
            ParamDecl::Receiver => ParamDeclV::Receiver,
            ParamDecl::Typed(p) => ParamDeclV::Typed(p@),
        }
    }
}

/// Whether a declared parameter is the receiver.
pub fn is_receiver(p: &ParamDecl) -> (r: bool)
    ensures
        r == (p@ is Receiver),
{
    match p {
        ParamDecl::Receiver => true,
        ParamDecl::Typed(_) => false,
    }
}

/// One exported declaration as handed to the generator: its qualified
/// name, the object type whose method block it stands in (if any), its
/// parameters in order, its success type, its declared error type (if
/// any), whether it is asynchronous, and the executor-selection directive
/// on it (if any).
#[derive(Debug)]
pub struct Declaration {
    pub name: String,
    pub method_of: Option<String>,
    pub params: Vec<ParamDecl>,
    pub success: TypeTag,
    pub throws: Option<String>,
    pub is_async: bool,
    pub async_runtime: Option<String>,
}

/// The mathematical model of a declaration.
#[verifier::ext_equal]
pub struct DeclarationV {
    pub name: Seq<char>,
    pub method_of: Option<Seq<char>>,
    pub params: Seq<ParamDeclV>,
    pub success: TypeTag,
    pub throws: Option<Seq<char>>,
    pub is_async: bool,
    pub async_runtime: Option<Seq<char>>,
}

impl View for Declaration {
    type V = DeclarationV;

    open spec fn view(&self) -> DeclarationV {
        DeclarationV {
            name: self.name@,
            method_of: match &self.method_of {
                Some(n) => Some(n@),
                None => None,
            },
            params: self.params@.map_values(|p: ParamDecl| p@),
            success: self.success,
            throws: match &self.throws {
                Some(n) => Some(n@),
                None => None,
            },
            is_async: self.is_async,
            async_runtime: match &self.async_runtime {
                Some(n) => Some(n@),
                None => None,
            },
        }
    }
}

/// Which native scheduler advances an asynchronous export: the default
/// executor, or the named alternate the directive selected.
#[derive(Debug)]
pub enum Executor {
    Default,
    Named(String),
}

/// The mathematical model of an executor selection.
#[verifier::ext_equal]
pub enum ExecutorV {
    Default,
    Named(Seq<char>),
}

impl View for Executor {
    type V = ExecutorV;

    open spec fn view(&self) -> ExecutorV {
        match self {
            Executor::Default => ExecutorV::Default,
            Executor::Named(n) => ExecutorV::Named(n@),
        }
    }
}

/// The classified record of one exported declaration, immutable once
/// produced: everything the boundary entry generator and a foreign
/// adapter need to call the export with the right types.
#[derive(Debug)]
pub struct ExportedSignature {
    pub name: String,
    pub receiver: Option<String>,
    pub params: Vec<TypedParam>,
    pub success: TypeTag,
    pub throws: Option<String>,
    pub is_async: bool,
    pub executor: Executor,
}

/// The mathematical model of an exported signature.
#[verifier::ext_equal]
pub struct ExportedSignatureV {
    pub name: Seq<char>,
    pub receiver: Option<Seq<char>>,
    pub params: Seq<TypedParamV>,
    pub success: TypeTag,
    pub throws: Option<Seq<char>>,
    pub is_async: bool,
    pub executor: ExecutorV,
}

impl View for ExportedSignature {
    type V = ExportedSignatureV;

    open spec fn view(&self) -> ExportedSignatureV {
        ExportedSignatureV {
            name: self.name@,
            receiver: match &self.receiver {
                Some(n) => Some(n@),
                None => None,
            },
            params: self.params@.map_values(|p: TypedParam| p@),
            success: self.success,
            throws: match &self.throws {
                Some(n) => Some(n@),
                None => None,
            },
            is_async: self.is_async,
            executor: self.executor@,
        }
    }
}

/// Why a declaration cannot be exported. These are generation-time
/// failures, reported to the generator's caller; none is ever visible at
/// the running boundary.
#[derive(Clone, Copy, PartialEq, Eq, Structural, Debug)]
pub enum ClassifyError {
    /// A receiver parameter stands anywhere other than position 0.
    MisplacedReceiver,
    /// A receiver parameter on a declaration outside any method block.
    ReceiverOutsideMethod,
    /// A function without a receiver inside an object's method block;
    /// methods must take a receiver.
    AssociatedFunction,
    /// An executor-selection directive on a non-asynchronous declaration.
    DirectiveOnSync,
}

/// A receiver parameter somewhere after position 0.
pub open spec fn has_misplaced_receiver(d: DeclarationV) -> bool {
    exists|i: int| 1 <= i < d.params.len() && d.params[i] is Receiver
}

/// A receiver on a declaration that stands in no method block.
pub open spec fn has_free_receiver(d: DeclarationV) -> bool {
    d.method_of is None && d.params.len() > 0 && d.params[0] is Receiver
}

/// A declaration inside a method block whose first parameter is not the
/// receiver.
pub open spec fn is_associated(d: DeclarationV) -> bool {
    d.method_of is Some && !(d.params.len() > 0 && d.params[0] is Receiver)
}

/// A directive on a declaration that is not asynchronous.
pub open spec fn has_stray_directive(d: DeclarationV) -> bool {
    d.async_runtime is Some && !d.is_async
}

/// The value parameters of a declaration, in order, with the receiver
/// (always first when present) left out.
pub open spec fn spec_value_params(d: DeclarationV) -> Seq<TypedParamV> {
    d.params.skip(if d.method_of is Some { 1int } else { 0int }).map_values(
        |p: ParamDeclV| p->Typed_0,
    )
}

/// What classification produces: the record, or the first failure in the
/// order the checks run — receiver placement, then receiver context, then
/// the directive.
pub open spec fn spec_classify(d: DeclarationV) -> Result<ExportedSignatureV, ClassifyError> {
    if has_misplaced_receiver(d) {
        Err(ClassifyError::MisplacedReceiver)
    } else if has_free_receiver(d) {
        Err(ClassifyError::ReceiverOutsideMethod)
    } else if is_associated(d) {
        Err(ClassifyError::AssociatedFunction)
    } else if has_stray_directive(d) {
        Err(ClassifyError::DirectiveOnSync)
    } else {
        Ok(
            ExportedSignatureV {
                name: d.name,
                receiver: d.method_of,
                params: spec_value_params(d),
                success: d.success,
                throws: d.throws,
                is_async: d.is_async,
                executor: match d.async_runtime {
                    Some(n) => ExecutorV::Named(n),
                    None => ExecutorV::Default,
                },
            },
        )
    }
}

/// Classify one declaration. Pure and deterministic: the result is a
/// function of the declaration alone, given by [`spec_classify`].
pub fn classify(d: &Declaration) -> (r: Result<ExportedSignature, ClassifyError>)
    ensures
        match r {
            Ok(sig) => spec_classify(d@) == Ok::<ExportedSignatureV, ClassifyError>(sig@),
            Err(e) => spec_classify(d@) == Err::<ExportedSignatureV, ClassifyError>(e),
        },
{
    let mut i: usize = 1;
    while i < d.params.len()
        invariant
            1 <= i,
            forall|j: int| 1 <= j < i ==> !((#[trigger] d@.params[j]) is Receiver),
        decreases d.params@.len() - i,
    {
        if is_receiver(&d.params[i]) {
            assert(d@.params[i as int] is Receiver);
            return Err(ClassifyError::MisplacedReceiver);
        }
        i = i + 1;
    }
    assert(!has_misplaced_receiver(d@));
    let starts_with_receiver = d.params.len() > 0 && is_receiver(&d.params[0]);
    let skip: usize = match &d.method_of {
        Some(_) => {
            if !starts_with_receiver {
                return Err(ClassifyError::AssociatedFunction);
            }
            1
        }
        None => {
            if starts_with_receiver {
                return Err(ClassifyError::ReceiverOutsideMethod);
            }
            0
        }
    };
    if !d.is_async {
        match &d.async_runtime {
            Some(_) => {
                return Err(ClassifyError::DirectiveOnSync);
            }
            None => {}
        }
    }
    let mut params: Vec<TypedParam> = Vec::new();
    let mut k: usize = skip;
    while k < d.params.len()
        invariant
            skip <= k <= d.params@.len(),
            skip == (if d@.method_of is Some { 1int } else { 0int }),
            !has_misplaced_receiver(d@),
            !has_free_receiver(d@),
            !is_associated(d@),
            params@.len() == k - skip,
            forall|j: int|
                0 <= j < params@.len() ==> (#[trigger] params@[j])@ == d@.params[skip + j]
                    ->Typed_0,
        decreases d.params@.len() - k,
    {
        match &d.params[k] {
            ParamDecl::Typed(tp) => {
                proof {
                    assert(d@.params[k as int] == d.params@[k as int]@);
                    assert(d@.params[k as int] == ParamDeclV::Typed(tp@));
                }
                params.push(tp.duplicate());
            }
            ParamDecl::Receiver => {
                proof {
                    assert(d.params@[k as int] is Receiver);
                    assert(d@.params[k as int] == d.params@[k as int]@);
                    if k >= 1 {
                        assert(d@.params[k as int] is Receiver);
                    } else {
                        assert(d@.params[0] is Receiver);
                    }
                    assert(false);
                }
            }
        }
        k = k + 1;
    }
    proof {
        assert(params@.map_values(|p: TypedParam| p@) =~= spec_value_params(d@));
    }
    let sig = ExportedSignature {
        name: d.name.clone(),
        receiver: match &d.method_of {
            Some(n) => Some(n.clone()),
            None => None,
        },
        params,
        success: d.success,
        throws: match &d.throws {
            Some(n) => Some(n.clone()),
            None => None,
        },
        is_async: d.is_async,
        executor: match &d.async_runtime {
            Some(n) => Executor::Named(n.clone()),
            None => Executor::Default,
        },
    };
    proof {
        assert(sig@ =~= spec_classify(d@)->Ok_0);
    }
    Ok(sig)
}

} // verus!
