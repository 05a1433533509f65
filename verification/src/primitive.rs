//! The simplest payloads: nothing, or a single integer.
use crate::wire::{be_i32, be_i32_of};
use vstd::prelude::*;

verus! {

/// A payload of a primitive type.
#[derive(Debug, PartialEq, Eq, Clone, Copy, Structural)]
pub enum Primitive {
    Void,
    Int32(i32),
    Unknown,
}

/// What a buffer holds under a primitive type code: nothing under code 0, a
/// big-endian integer under code 3, and something unknown under any other.
pub open spec fn primitive_of(buffer: Seq<u8>, code: u8) -> Primitive {
    if code == 0 {
        Primitive::Void
    } else if code == 3 {
        Primitive::Int32(be_i32_of(buffer))
    } else {
        Primitive::Unknown
    }
}

/// Decodes a buffer as the primitive type `code`. An integer takes a buffer
/// of exactly four bytes.
pub fn parse_primitive(buffer: &[u8], code: u8) -> (r: Primitive)
    requires
        code == 3 ==> buffer@.len() == 4,
    ensures
        r == primitive_of(buffer@, code),
{
    match code {
        0 => Primitive::Void,
        3 => match be_i32(buffer) {
            Some(value) => Primitive::Int32(value),
            None => Primitive::Unknown,
        },
        _ => Primitive::Unknown,
    }
}

} // verus!
