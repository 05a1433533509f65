//! Big-endian words, the unit that every fixed-width field of the format is
//! written in.
use vstd::prelude::*;

verus! {

/// The unsigned number that four bytes spell, most significant byte first.
pub open spec fn be_word(b: Seq<u8>) -> int
    recommends
        b.len() >= 4,
{
    b[0] as int * 0x100_0000 + b[1] as int * 0x1_0000 + b[2] as int * 0x100 + b[3] as int
}

/// The first four bytes read as an unsigned big-endian word.
pub open spec fn be_u32_of(b: Seq<u8>) -> u32
    recommends
        b.len() >= 4,
{
    be_word(b) as u32
}

/// The first four bytes read as a signed big-endian word in two's complement.
pub open spec fn be_i32_of(b: Seq<u8>) -> i32
    recommends
        b.len() >= 4,
{
    if be_word(b) < 0x8000_0000 {
        be_word(b) as i32
    } else {
        (be_word(b) - 0x1_0000_0000) as i32
    }
}

/// A word is determined by its first four bytes alone.
pub proof fn lemma_be_word_prefix(a: Seq<u8>, b: Seq<u8>)
    requires
        a.len() >= 4,
        b.len() >= 4,
        a.subrange(0, 4) == b.subrange(0, 4),
    ensures
        be_word(a) == be_word(b),
        be_u32_of(a) == be_u32_of(b),
        be_i32_of(a) == be_i32_of(b),
        0 <= be_word(a) < 0x1_0000_0000,
{
    assert(a[0] == a.subrange(0, 4)[0]);
    assert(a[1] == a.subrange(0, 4)[1]);
    assert(a[2] == a.subrange(0, 4)[2]);
    assert(a[3] == a.subrange(0, 4)[3]);
    assert(b[0] == b.subrange(0, 4)[0]);
    assert(b[1] == b.subrange(0, 4)[1]);
    assert(b[2] == b.subrange(0, 4)[2]);
    assert(b[3] == b.subrange(0, 4)[3]);
}

/// Reads a signed word with `nom::number::complete::be_i32`.
///
/// Trusted: on fewer than four bytes the parser fails, and otherwise it yields
/// the first four bytes as a big-endian two's-complement integer. What it
/// leaves of the input is dropped here; callers advance by four bytes.
#[verifier::external_body]
pub(crate) fn be_i32(input: &[u8]) -> (r: Option<i32>)
    ensures
        r == (if input@.len() < 4 {
            None
        } else {
            Some(be_i32_of(input@))
        }),
{
    match nom::number::complete::be_i32::<&[u8], nom::error::Error<&[u8]>>(input) {
        Ok((_, value)) => Some(value),
        Err(_) => None,
    }
}

/// Reads an unsigned word with `nom::number::complete::be_u32`.
///
/// Trusted: on fewer than four bytes the parser fails, and otherwise it yields
/// the first four bytes as a big-endian unsigned integer.
#[verifier::external_body]
pub(crate) fn be_u32(input: &[u8]) -> (r: Option<u32>)
    ensures
        r == (if input@.len() < 4 {
            None
        } else {
            Some(be_u32_of(input@))
        }),
{
    match nom::number::complete::be_u32::<&[u8], nom::error::Error<&[u8]>>(input) {
        Ok((_, value)) => Some(value),
        Err(_) => None,
    }
}

} // verus!
