//! The boundary entry generator: from one classified signature to the
//! boundary entry points that implement the bridge contract for it.
//!
//! A synchronous signature gets one entry, its invoke. An asynchronous
//! signature gets three: invoke, which starts the computation and returns
//! the handle; poll; and release. Poll and release are specialized per
//! (success type, declared error type) pair, since the output slot's shape
//! depends on both; each entry record carries that pair.

use vstd::prelude::*;
use vstd::string::StringExecFns;
use crate::AbiShape;
use crate::abi::{TypeTag, spec_shape_of, shape_of};
use crate::signature::{
    Declaration, ExportedSignature, ExportedSignatureV, TypedParam, ClassifyError, classify,
    spec_classify,
};

verus! {

/// Which of the three boundary entry points a record describes.
#[derive(Clone, Copy, PartialEq, Eq, Structural, Debug)]
pub enum EntryKind {
    Invoke,
    Poll,
    Release,
}

/// One boundary entry point: its kind, the symbol it is reachable under,
/// the shapes of its value arguments in order, and the (success type,
/// declared error type) pair it is specialized for.
#[derive(Debug)]
pub struct BoundaryEntry {
    pub kind: EntryKind,
    pub symbol: String,
    pub arg_shapes: Vec<AbiShape>,
    pub success: TypeTag,
    pub throws: Option<String>,
}

/// The mathematical model of a boundary entry.
#[verifier::ext_equal]
pub struct BoundaryEntryV {
    pub kind: EntryKind,
    pub symbol: Seq<char>,
    pub arg_shapes: Seq<AbiShape>,
    pub success: TypeTag,
    pub throws: Option<Seq<char>>,
}

impl View for BoundaryEntry {
    type V = BoundaryEntryV;

    open spec fn view(&self) -> BoundaryEntryV {
        BoundaryEntryV {
            kind: self.kind,
            symbol: self.symbol@,
            arg_shapes: self.arg_shapes@,
            success: self.success,
            throws: match &self.throws {
                Some(n) => Some(n@),
                None => None,
            },
        }
    }
}

/// The symbol an export's invoke entry lives under: a method is reached
/// through its object's name, a free function through its own.
pub open spec fn spec_base_symbol(sig: ExportedSignatureV) -> Seq<char> {
    match sig.receiver {
        Some(obj) => "impl_"@ + obj + "_"@ + sig.name,
        None => sig.name,
    }
}

/// The argument shapes of an invoke entry: the receiver travels first as
/// an object handle, then each value parameter in its type's shape.
pub open spec fn spec_invoke_shapes(sig: ExportedSignatureV) -> Seq<AbiShape> {
    (if sig.receiver is Some {
        seq![AbiShape::Handle]
    } else {
        Seq::<AbiShape>::empty()
    }) + sig.params.map_values(|p: crate::signature::TypedParamV| spec_shape_of(p.ty))
}

/// The argument shapes of a poll entry: the computation handle, the
/// callback function pointer and its environment pointer. The output slot
/// and status cell are out-parameters, not value arguments.
pub open spec fn spec_poll_shapes() -> Seq<AbiShape> {
    seq![AbiShape::Handle, AbiShape::Scalar, AbiShape::Scalar]
}

/// The argument shape of a release entry: the computation handle alone.
pub open spec fn spec_release_shapes() -> Seq<AbiShape> {
    seq![AbiShape::Handle]
}

/// The entries a signature demands: invoke alone when synchronous;
/// invoke, poll and release when asynchronous, the latter two under the
/// invoke symbol with its suffix and specialized to the signature's
/// (success, error) pair.
pub open spec fn spec_entries(sig: ExportedSignatureV) -> Seq<BoundaryEntryV> {
    let invoke = BoundaryEntryV {
        kind: EntryKind::Invoke,
        symbol: spec_base_symbol(sig),
        arg_shapes: spec_invoke_shapes(sig),
        success: sig.success,
        throws: sig.throws,
    };
    if sig.is_async {
        seq![
            invoke,
            BoundaryEntryV {
                kind: EntryKind::Poll,
                symbol: spec_base_symbol(sig) + "_poll"@,
                arg_shapes: spec_poll_shapes(),
                success: sig.success,
                throws: sig.throws,
            },
            BoundaryEntryV {
                kind: EntryKind::Release,
                symbol: spec_base_symbol(sig) + "_release"@,
                arg_shapes: spec_release_shapes(),
                success: sig.success,
                throws: sig.throws,
            },
        ]
    } else {
        seq![invoke]
    }
}

/// A copy of a signature's declared-error name.
fn clone_throws(t: &Option<String>) -> (r: Option<String>)
    ensures
        (match r {
            Some(n) => (match *t {
                Some(m) => n@ == m@,
                None => false,
            }),
            None => *t is None,
        }),
{
    match t {
        Some(n) => Some(n.clone()),
        None => None,
    }
}

/// The boundary shapes of a signature's value parameters, in order.
pub fn collect_params(params: &Vec<TypedParam>) -> (r: Vec<AbiShape>)
    ensures
        r@ == params@.map_values(|p: TypedParam| spec_shape_of(p@.ty)),
{
    let mut r: Vec<AbiShape> = Vec::new();
    let mut i: usize = 0;
    while i < params.len()
        invariant
            i <= params@.len(),
            r@.len() == i,
            forall|j: int| 0 <= j < i ==> (#[trigger] r@[j]) == spec_shape_of(params@[j]@.ty),
        decreases params@.len() - i,
    {
        r.push(shape_of(params[i].ty));
        i = i + 1;
    }
    proof {
        assert(r@ =~= params@.map_values(|p: TypedParam| spec_shape_of(p@.ty)));
    }
    r
}

/// The invoke symbol of a signature.
fn base_symbol(sig: &ExportedSignature) -> (r: String)
    ensures
        r@ == spec_base_symbol(sig@),
{
    match &sig.receiver {
        Some(obj) => {
            let mut s = String::new();
            s.append("impl_");
            s.append(obj.as_str());
            s.append("_");
            s.append(sig.name.as_str());
            proof {
                assert(s@ =~= spec_base_symbol(sig@));
            }
            s
        }
        None => sig.name.clone(),
    }
}

/// Generate the boundary entries of one classified signature, as
/// [`spec_entries`] lays them out.
pub fn gen_ffi_function(sig: &ExportedSignature) -> (r: Vec<BoundaryEntry>)
    ensures
        r@.map_values(|e: BoundaryEntry| e@) == spec_entries(sig@),
        r@.len() == (if sig.is_async { 3int } else { 1int }),
{
    let mut value_shapes = collect_params(&sig.params);
    let mut invoke_shapes: Vec<AbiShape> = Vec::new();
    match &sig.receiver {
        Some(_) => invoke_shapes.push(AbiShape::Handle),
        None => {}
    }
    let mut i: usize = 0;
    while i < value_shapes.len()
        invariant
            i <= value_shapes@.len(),
            value_shapes@ == sig.params@.map_values(|p: TypedParam| spec_shape_of(p@.ty)),
            invoke_shapes@.len() == i + (if sig@.receiver is Some { 1int } else { 0int }),
            invoke_shapes@ =~= (if sig@.receiver is Some {
                seq![AbiShape::Handle]
            } else {
                Seq::<AbiShape>::empty()
            }) + value_shapes@.take(i as int),
        decreases value_shapes@.len() - i,
    {
        invoke_shapes.push(value_shapes[i]);
        i = i + 1;
        proof {
            assert(invoke_shapes@ =~= (if sig@.receiver is Some {
                seq![AbiShape::Handle]
            } else {
                Seq::<AbiShape>::empty()
            }) + value_shapes@.take(i as int));
        }
    }
    proof {
        assert(sig.params@.map_values(|p: TypedParam| spec_shape_of(p@.ty)) =~= sig@.params
            .map_values(|p: crate::signature::TypedParamV| spec_shape_of(p.ty)));
        assert(invoke_shapes@ =~= spec_invoke_shapes(sig@));
    }
    let base = base_symbol(sig);
    let mut r: Vec<BoundaryEntry> = Vec::new();
    if sig.is_async {
        let mut poll_symbol = base.clone();
        poll_symbol.append("_poll");
        let mut release_symbol = base.clone();
        release_symbol.append("_release");
        let mut poll_shapes: Vec<AbiShape> = Vec::new();
        poll_shapes.push(AbiShape::Handle);
        poll_shapes.push(AbiShape::Scalar);
        poll_shapes.push(AbiShape::Scalar);
        let mut release_shapes: Vec<AbiShape> = Vec::new();
        release_shapes.push(AbiShape::Handle);
        r.push(
            BoundaryEntry {
                kind: EntryKind::Invoke,
                symbol: base,
                arg_shapes: invoke_shapes,
                success: sig.success,
                throws: clone_throws(&sig.throws),
            },
        );
        r.push(
            BoundaryEntry {
                kind: EntryKind::Poll,
                symbol: poll_symbol,
                arg_shapes: poll_shapes,
                success: sig.success,
                throws: clone_throws(&sig.throws),
            },
        );
        r.push(
            BoundaryEntry {
                kind: EntryKind::Release,
                symbol: release_symbol,
                arg_shapes: release_shapes,
                success: sig.success,
                throws: clone_throws(&sig.throws),
            },
        );
        proof {
            assert(r@.map_values(|e: BoundaryEntry| e@) =~~= spec_entries(sig@));
        }
    } else {
        r.push(
            BoundaryEntry {
                kind: EntryKind::Invoke,
                symbol: base,
                arg_shapes: invoke_shapes,
                success: sig.success,
                throws: clone_throws(&sig.throws),
            },
        );
        proof {
            assert(r@.map_values(|e: BoundaryEntry| e@) =~~= spec_entries(sig@));
        }
    }
    r
}

/// Scaffold one free-function declaration: classify it and, when it
/// passes, generate its boundary entries.
pub fn gen_fn_scaffolding(d: &Declaration) -> (r: Result<Vec<BoundaryEntry>, ClassifyError>)
    requires
        d@.method_of is None,
    ensures
        match r {
            Ok(es) => spec_classify(d@) is Ok && es@.map_values(|e: BoundaryEntry| e@)
                == spec_entries(spec_classify(d@)->Ok_0),
            Err(e) => spec_classify(d@) == Err::<ExportedSignatureV, ClassifyError>(e),
        },
{
    match classify(d) {
        Ok(sig) => Ok(gen_ffi_function(&sig)),
        Err(e) => Err(e),
    }
}

/// Scaffold one declaration from an object's method block: classify it
/// and, when it passes, generate its boundary entries.
pub fn gen_method_scaffolding(d: &Declaration) -> (r: Result<Vec<BoundaryEntry>, ClassifyError>)
    requires
        d@.method_of is Some,
    ensures
        match r {
            Ok(es) => spec_classify(d@) is Ok && es@.map_values(|e: BoundaryEntry| e@)
                == spec_entries(spec_classify(d@)->Ok_0),
            Err(e) => spec_classify(d@) == Err::<ExportedSignatureV, ClassifyError>(e),
        },
{
    match classify(d) {
        Ok(sig) => Ok(gen_ffi_function(&sig)),
        Err(e) => Err(e),
    }
}

} // verus!
