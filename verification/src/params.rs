//! Typed argument marshaling for calls into host-registered functions.
//!
//! Each argument is encoded as a one-byte tag followed by a fixed-width
//! little-endian payload; an argument list is the flat concatenation of its
//! encoded arguments, with no outer framing. Strings and typed arrays flow
//! guest-to-host as zero-copy (address, length) pairs, so the encoded form
//! carries only the view's base address and element count.

use vstd::bytes::{spec_u32_to_le_bytes, spec_u64_to_le_bytes, u32_to_le_bytes, u64_to_le_bytes};
use vstd::prelude::*;

verus! {

/// An opaque token identifying a host-owned object. The guest only
/// round-trips the raw value, it never dereferences it.
#[derive(Debug, Clone, Copy, PartialEq, Eq, Hash, Structural)]
pub struct ExternRef {
    pub value: u32,
}

/// A view of guest memory handed to the host without copying: a base
/// address and an element count. The region must stay valid and unmoved
/// for the duration of the call that carries it.
#[derive(Debug, Clone, Copy, PartialEq, Eq, Structural)]
pub struct MemView {
    pub addr: u32,
    pub len: u64,
}

/// One typed argument for a host call. Floating-point payloads are carried
/// as their IEEE-754 bit patterns, which is exactly what the wire format
/// transmits.
#[derive(Debug, Clone, Copy, PartialEq, Eq, Structural)]
pub enum InvokeParam {
    Undefined,
    Null,
    Float64(u64),
    BigInt(i64),
    String(MemView),
    ExternRef(ExternRef),
    Float32Array(MemView),
    Bool(bool),
    Float64Array(MemView),
    Uint32Array(MemView),
    Uint32(u32),
    Int32(i32),
}

/// The encoded form of a memory view: address then length, little-endian.
pub open spec fn spec_view_bytes(v: MemView) -> Seq<u8> {
    spec_u32_to_le_bytes(v.addr) + spec_u64_to_le_bytes(v.len)
}

/// The encoded form of one argument: its tag byte, then its payload.
pub open spec fn spec_param_bytes(p: InvokeParam) -> Seq<u8> {
    match p {
        InvokeParam::Undefined => seq![0u8],
        InvokeParam::Null => seq![1u8],
        InvokeParam::Float64(bits) => seq![2u8] + spec_u64_to_le_bytes(bits),
        InvokeParam::BigInt(i) => seq![3u8] + spec_u64_to_le_bytes(i as u64),
        InvokeParam::String(v) => seq![4u8] + spec_view_bytes(v),
        InvokeParam::ExternRef(r) => seq![5u8] + spec_u32_to_le_bytes(r.value),
        InvokeParam::Float32Array(v) => seq![6u8] + spec_view_bytes(v),
        InvokeParam::Bool(b) => if b {
            seq![7u8]
        } else {
            seq![8u8]
        },
        InvokeParam::Float64Array(v) => seq![9u8] + spec_view_bytes(v),
        InvokeParam::Uint32Array(v) => seq![10u8] + spec_view_bytes(v),
        InvokeParam::Uint32(i) => seq![11u8] + spec_u32_to_le_bytes(i),
        InvokeParam::Int32(i) => seq![12u8] + spec_u32_to_le_bytes(i as u32),
    }
}

/// The encoded form of an argument list: the arguments' encodings
/// concatenated in order.
pub open spec fn spec_params_bytes(ps: Seq<InvokeParam>) -> Seq<u8>
    decreases ps.len(),
{
    if ps.len() == 0 {
        Seq::empty()
    } else {
        spec_params_bytes(ps.drop_last()) + spec_param_bytes(ps.last())
    }
}

fn tag_only(tag: u8) -> (r: Vec<u8>)
    ensures
        r@ == seq![tag],
{
    let mut out: Vec<u8> = Vec::new();
    out.push(tag);
    assert(out@ =~= seq![tag]);
    out
}

fn tag_u32(tag: u8, x: u32) -> (r: Vec<u8>)
    ensures
        r@ == seq![tag] + spec_u32_to_le_bytes(x),
{
    let mut out: Vec<u8> = Vec::new();
    out.push(tag);
    let mut payload = u32_to_le_bytes(x);
    out.append(&mut payload);
    assert(out@ =~= seq![tag] + spec_u32_to_le_bytes(x));
    out
}

fn tag_u64(tag: u8, x: u64) -> (r: Vec<u8>)
    ensures
        r@ == seq![tag] + spec_u64_to_le_bytes(x),
{
    let mut out: Vec<u8> = Vec::new();
    out.push(tag);
    let mut payload = u64_to_le_bytes(x);
    out.append(&mut payload);
    assert(out@ =~= seq![tag] + spec_u64_to_le_bytes(x));
    out
}

fn tag_view(tag: u8, v: MemView) -> (r: Vec<u8>)
    ensures
        r@ == seq![tag] + spec_view_bytes(v),
{
    let mut out: Vec<u8> = Vec::new();
    out.push(tag);
    let mut addr = u32_to_le_bytes(v.addr);
    out.append(&mut addr);
    let mut len = u64_to_le_bytes(v.len);
    out.append(&mut len);
    assert(out@ =~= seq![tag] + spec_view_bytes(v));
    out
}

impl InvokeParam {
    /// Encode one argument as its tag byte followed by its fixed-width
    /// little-endian payload.
    pub fn serialize(&self) -> (r: Vec<u8>)
        ensures
            r@ == spec_param_bytes(*self),
    {
        match self {
            InvokeParam::Undefined => tag_only(0),
            InvokeParam::Null => tag_only(1),
            InvokeParam::Float64(bits) => tag_u64(2, *bits),
            InvokeParam::BigInt(i) => tag_u64(3, *i as u64),
            InvokeParam::String(v) => tag_view(4, *v),
            InvokeParam::ExternRef(r) => tag_u32(5, r.value),
            InvokeParam::Float32Array(v) => tag_view(6, *v),
            InvokeParam::Bool(b) => if *b {
                tag_only(7)
            } else {
                tag_only(8)
            },
            InvokeParam::Float64Array(v) => tag_view(9, *v),
            InvokeParam::Uint32Array(v) => tag_view(10, *v),
            InvokeParam::Uint32(i) => tag_u32(11, *i),
            InvokeParam::Int32(i) => tag_u32(12, *i as u32),
        }
    }
}

/// Encode an argument list as the flat concatenation of its arguments'
/// encodings. The receiver recovers the argument count from the fixed
/// per-tag sizes; there is no outer framing.
pub fn serialize_params(params: &[InvokeParam]) -> (r: Vec<u8>)
    ensures
        r@ == spec_params_bytes(params@),
{
    let mut out: Vec<u8> = Vec::new();
    let mut j: usize = 0;
    while j < params.len()
        invariant
            j <= params@.len(),
            out@ == spec_params_bytes(params@.take(j as int)),
        decreases params@.len() - j,
    {
        let mut one = params[j].serialize();
        out.append(&mut one);
        proof {
            assert(params@.take(j + 1 as int).drop_last() =~= params@.take(j as int));
            assert(params@.take(j + 1 as int).last() == params@[j as int]);
        }
        j += 1;
    }
    proof {
        assert(params@.take(params@.len() as int) =~= params@);
    }
    out
}

} // verus!
