//! Per-type value conversion between native values and their boundary-safe
//! representations.
//!
//! `lower` is total: every native value has exactly one boundary shape.
//! `lift` is partial: it rejects structurally invalid representations
//! (an out-of-range scalar, malformed text bytes, a dangling object handle)
//! with a `ConversionFault`. Lowering then lifting returns the value that
//! went in; see [`lemma_lift_lower_roundtrip`].

use vstd::prelude::*;
use vstd::utf8::{encode_utf8, decode_utf8, valid_utf8};
use vstd::string::StrSliceExecFns;
use crate::registry::ObjectRegistry;

verus! {

broadcast use vstd::utf8::encode_utf8_valid_utf8, vstd::utf8::encode_utf8_decode_utf8;

/// The semantic types a signature can mention at the boundary.
#[derive(Clone, Copy, PartialEq, Eq, Structural, Debug)]
pub enum TypeTag {
    Boolean,
    UInt8,
    Text,
    Unit,
    Object,
}

/// A native value of one of the supported semantic types. Object-typed
/// values are carried as the handle the registry gave out for them.
#[derive(Debug)]
pub enum NativeValue {
    Bool(bool),
    U8(u8),
    Text(String),
    Unit,
    Object(u64),
}

/// The mathematical model of a native value: text is a character sequence.
pub enum NativeV {
    Bool(bool),
    U8(u8),
    Text(Seq<char>),
    Unit,
    Object(u64),
}

impl View for NativeValue {
    type V = NativeV;

    open spec fn view(&self) -> NativeV {
        match self {
            NativeValue::Bool(b) => NativeV::Bool(*b),
            NativeValue::U8(u) => NativeV::U8(*u),
            NativeValue::Text(s) => NativeV::Text(s@),
            NativeValue::Unit => NativeV::Unit,
            NativeValue::Object(h) => NativeV::Object(*h),
        }
    }
}

/// A boundary-safe value: a fixed-width scalar, a byte buffer, or an
/// opaque handle to a boundary-managed object.
#[derive(PartialEq, Debug)]
pub enum AbiValue {
    Scalar(u64),
    Buffer(Vec<u8>),
    Handle(u64),
}

/// The mathematical model of a boundary-safe value.
pub enum AbiV {
    Scalar(u64),
    Buffer(Seq<u8>),
    Handle(u64),
}

impl View for AbiValue {
    type V = AbiV;

    open spec fn view(&self) -> AbiV {
        match self {
            AbiValue::Scalar(u) => AbiV::Scalar(*u),
            AbiValue::Buffer(b) => AbiV::Buffer(b@),
            AbiValue::Handle(h) => AbiV::Handle(*h),
        }
    }
}

impl AbiValue {
    /// An equal boundary value; buffers are copied byte for byte.
    pub fn duplicate(&self) -> (r: Self)
        ensures
            r@ == self@,
    {
        match self {
            AbiValue::Scalar(u) => AbiValue::Scalar(*u),
            AbiValue::Buffer(b) => {
                let mut copy: Vec<u8> = Vec::new();
                let mut i: usize = 0;
                while i < b.len()
                    invariant
                        i <= b.len(),
                        copy@ == b@.take(i as int),
                    decreases b.len() - i,
                {
                    copy.push(b[i]);
                    i = i + 1;
                    proof {
                        assert(copy@ =~= b@.take(i as int));
                    }
                }
                proof {
                    assert(copy@ =~= b@);
                }
                AbiValue::Buffer(copy)
            }
            AbiValue::Handle(h) => AbiValue::Handle(*h),
        }
    }
}

/// Why lifting a boundary value failed: the representation is not a
/// well-formed encoding of any value of the requested type.
#[derive(Clone, Copy, PartialEq, Eq, Structural, Debug)]
pub enum ConversionFault {
    /// The value's shape class is not the one the type uses.
    WrongShape,
    /// A scalar outside the type's representable range.
    OutOfRange,
    /// A byte buffer that is not a well-formed text encoding.
    MalformedText,
    /// A handle that no live boundary-managed object carries.
    DanglingHandle,
}

/// The shape class a type's values take at the boundary.
pub open spec fn spec_shape_of(t: TypeTag) -> crate::AbiShape {
    match t {
        TypeTag::Boolean => crate::AbiShape::Scalar,
        TypeTag::UInt8 => crate::AbiShape::Scalar,
        TypeTag::Text => crate::AbiShape::Buffer,
        TypeTag::Unit => crate::AbiShape::Scalar,
        TypeTag::Object => crate::AbiShape::Handle,
    }
}

/// The shape class a type's values take at the boundary.
pub fn shape_of(t: TypeTag) -> (r: crate::AbiShape)
    ensures
        r == spec_shape_of(t),
{
    match t {
        TypeTag::Boolean => crate::AbiShape::Scalar,
        TypeTag::UInt8 => crate::AbiShape::Scalar,
        TypeTag::Text => crate::AbiShape::Buffer,
        TypeTag::Unit => crate::AbiShape::Scalar,
        TypeTag::Object => crate::AbiShape::Handle,
    }
}

/// The semantic type a native value belongs to.
pub open spec fn spec_tag_of(v: NativeV) -> TypeTag {
    match v {
        NativeV::Bool(_) => TypeTag::Boolean,
        NativeV::U8(_) => TypeTag::UInt8,
        NativeV::Text(_) => TypeTag::Text,
        NativeV::Unit => TypeTag::Unit,
        NativeV::Object(_) => TypeTag::Object,
    }
}

/// What lowering produces: the unique boundary representation of a value.
pub open spec fn spec_lower(v: NativeV) -> AbiV {
    match v {
        NativeV::Bool(b) => AbiV::Scalar(if b { 1u64 } else { 0u64 }),
        NativeV::U8(u) => AbiV::Scalar(u as u64),
        NativeV::Text(s) => AbiV::Buffer(encode_utf8(s)),
        NativeV::Unit => AbiV::Scalar(0u64),
        NativeV::Object(h) => AbiV::Handle(h),
    }
}

/// What lifting produces for a given type, representation and set of live
/// object handles: the unique native value the representation encodes, or
/// the fault that makes it invalid.
pub open spec fn spec_lift(t: TypeTag, v: AbiV, live: Set<u64>) -> Result<
    NativeV,
    ConversionFault,
> {
    match t {
        TypeTag::Boolean => match v {
            AbiV::Scalar(u) => if u == 0 {
                Ok(NativeV::Bool(false))
            } else if u == 1 {
                Ok(NativeV::Bool(true))
            } else {
                Err(ConversionFault::OutOfRange)
            },
            _ => Err(ConversionFault::WrongShape),
        },
        TypeTag::UInt8 => match v {
            AbiV::Scalar(u) => if u <= 255 {
                Ok(NativeV::U8(u as u8))
            } else {
                Err(ConversionFault::OutOfRange)
            },
            _ => Err(ConversionFault::WrongShape),
        },
        TypeTag::Text => match v {
            AbiV::Buffer(b) => if valid_utf8(b) {
                Ok(NativeV::Text(decode_utf8(b)))
            } else {
                Err(ConversionFault::MalformedText)
            },
            _ => Err(ConversionFault::WrongShape),
        },
        TypeTag::Unit => match v {
            AbiV::Scalar(u) => if u == 0 {
                Ok(NativeV::Unit)
            } else {
                Err(ConversionFault::OutOfRange)
            },
            _ => Err(ConversionFault::WrongShape),
        },
        TypeTag::Object => match v {
            AbiV::Handle(h) => if live.contains(h) {
                Ok(NativeV::Object(h))
            } else {
                Err(ConversionFault::DanglingHandle)
            },
            _ => Err(ConversionFault::WrongShape),
        },
    }
}

/// Relies on String::from_utf8: it returns the string exactly when the
/// bytes are a well-formed encoding, and that string's encoding is the
/// input bytes.
#[verifier::external_body]
fn decode_text(bytes: Vec<u8>) -> (r: Option<String>)
    ensures
        match r {
            Some(s) => encode_utf8(s@) == bytes@,
            None => !valid_utf8(bytes@),
        },
{
    String::from_utf8(bytes).ok()
}

/// Convert a native value into its boundary representation. Total: every
/// supported value has exactly one representation.
pub fn lower(v: &NativeValue) -> (r: AbiValue)
    ensures
        r@ == spec_lower(v@),
{
    match v {
        NativeValue::Bool(b) => AbiValue::Scalar(if *b { 1 } else { 0 }),
        NativeValue::U8(u) => AbiValue::Scalar(*u as u64),
        NativeValue::Text(s) => AbiValue::Buffer(s.as_str().as_bytes_vec()),
        NativeValue::Unit => AbiValue::Scalar(0),
        NativeValue::Object(h) => AbiValue::Handle(*h),
    }
}

/// Convert a boundary representation back into a native value of the given
/// type, against the registry that says which object handles are live.
/// Fails exactly on structurally invalid representations.
pub fn lift(t: TypeTag, v: AbiValue, reg: &ObjectRegistry) -> (r: Result<
    NativeValue,
    ConversionFault,
>)
    requires
        reg.wf(),
    ensures
        match r {
            Ok(n) => spec_lift(t, v@, reg.live_set()) == Ok::<NativeV, ConversionFault>(n@),
            Err(f) => spec_lift(t, v@, reg.live_set()) == Err::<NativeV, ConversionFault>(f),
        },
{
    match t {
        TypeTag::Boolean => match v {
            AbiValue::Scalar(u) => if u == 0 {
                Ok(NativeValue::Bool(false))
            } else if u == 1 {
                Ok(NativeValue::Bool(true))
            } else {
                Err(ConversionFault::OutOfRange)
            },
            _ => Err(ConversionFault::WrongShape),
        },
        TypeTag::UInt8 => match v {
            AbiValue::Scalar(u) => if u <= 255 {
                Ok(NativeValue::U8(u as u8))
            } else {
                Err(ConversionFault::OutOfRange)
            },
            _ => Err(ConversionFault::WrongShape),
        },
        TypeTag::Text => match v {
            AbiValue::Buffer(b) => match decode_text(b) {
                Some(s) => {
                    proof {
                        // The decoded characters are determined by the bytes:
                        // decoding the encoding of `s@` gives `s@` back.
                        assert(decode_utf8(encode_utf8(s@)) == s@);
                    }
                    Ok(NativeValue::Text(s))
                }
                None => Err(ConversionFault::MalformedText),
            },
            _ => Err(ConversionFault::WrongShape),
        },
        TypeTag::Unit => match v {
            AbiValue::Scalar(u) => if u == 0 {
                Ok(NativeValue::Unit)
            } else {
                Err(ConversionFault::OutOfRange)
            },
            _ => Err(ConversionFault::WrongShape),
        },
        TypeTag::Object => match v {
            AbiValue::Handle(h) => if reg.is_live(h) {
                Ok(NativeValue::Object(h))
            } else {
                Err(ConversionFault::DanglingHandle)
            },
            _ => Err(ConversionFault::WrongShape),
        },
    }
}

/// Round trip: lowering any representable value and lifting the result at
/// its own type yields the value again. For object values, representable
/// means the handle is live in the registry the lift consults.
pub proof fn lemma_lift_lower_roundtrip(v: NativeV, live: Set<u64>)
    requires
        v is Object ==> live.contains(v->Object_0),
    ensures
        spec_lift(spec_tag_of(v), spec_lower(v), live) == Ok::<NativeV, ConversionFault>(v),
{
    match v {
        NativeV::Text(s) => {
            assert(valid_utf8(encode_utf8(s)));
            assert(decode_utf8(encode_utf8(s)) == s);
        }
        _ => {}
    }
}

/// Lowering puts every value of a type into that type's shape class.
pub proof fn lemma_lower_shape(v: NativeV)
    ensures
        match spec_lower(v) {
            AbiV::Scalar(_) => spec_shape_of(spec_tag_of(v)) == crate::AbiShape::Scalar,
            AbiV::Buffer(_) => spec_shape_of(spec_tag_of(v)) == crate::AbiShape::Buffer,
            AbiV::Handle(_) => spec_shape_of(spec_tag_of(v)) == crate::AbiShape::Handle,
        },
{
}

} // verus!
