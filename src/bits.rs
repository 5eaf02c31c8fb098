//! Facts about single bits of a `u8`, used by the attribute bitsets.
use vstd::prelude::*;

verus! {

/// `m` has exactly one bit set.
pub open spec fn is_single_bit(m: u8) -> bool {
    m == 1 || m == 2 || m == 4 || m == 8 || m == 16 || m == 32 || m == 64 || m == 128
}

pub proof fn lemma_bit_or(a: u8, b: u8, m: u8)
    requires
        is_single_bit(m),
    ensures
        ((a | b) & m != 0) == ((a & m != 0) || (b & m != 0)),
{
    assert(((a | b) & m != 0) == ((a & m != 0) || (b & m != 0))) by (bit_vector)
        requires
            m == 1 || m == 2 || m == 4 || m == 8 || m == 16 || m == 32 || m == 64 || m == 128,
    ;
}

pub proof fn lemma_bit_and(a: u8, b: u8, m: u8)
    requires
        is_single_bit(m),
    ensures
        ((a & b) & m != 0) == ((a & m != 0) && (b & m != 0)),
{
    assert(((a & b) & m != 0) == ((a & m != 0) && (b & m != 0))) by (bit_vector)
        requires
            m == 1 || m == 2 || m == 4 || m == 8 || m == 16 || m == 32 || m == 64 || m == 128,
    ;
}

pub proof fn lemma_bit_and_not(a: u8, b: u8, m: u8)
    requires
        is_single_bit(m),
    ensures
        ((a & !b) & m != 0) == ((a & m != 0) && (b & m == 0)),
{
    assert(((a & !b) & m != 0) == ((a & m != 0) && (b & m == 0))) by (bit_vector)
        requires
            m == 1 || m == 2 || m == 4 || m == 8 || m == 16 || m == 32 || m == 64 || m == 128,
    ;
}

pub proof fn lemma_bit_not(a: u8, m: u8)
    requires
        is_single_bit(m),
    ensures
        (!a & m != 0) == (a & m == 0),
{
    assert((!a & m != 0) == (a & m == 0)) by (bit_vector)
        requires
            m == 1 || m == 2 || m == 4 || m == 8 || m == 16 || m == 32 || m == 64 || m == 128,
    ;
}

pub proof fn lemma_bit_consts(m: u8)
    requires
        is_single_bit(m),
    ensures
        0u8 & m == 0,
        255u8 & m != 0,
        3u8 & m != 0 <==> (m == 1 || m == 2),
{
    assert(0u8 & m == 0 && 255u8 & m != 0 && (3u8 & m != 0 <==> (m == 1 || m == 2))) by (bit_vector)
        requires
            m == 1 || m == 2 || m == 4 || m == 8 || m == 16 || m == 32 || m == 64 || m == 128,
    ;
}

pub proof fn lemma_single_bits(a: u8, m: u8)
    requires
        is_single_bit(a),
        is_single_bit(m),
    ensures
        (a & m != 0) == (a == m),
{
    assert((a & m != 0) == (a == m)) by (bit_vector)
        requires
            a == 1 || a == 2 || a == 4 || a == 8 || a == 16 || a == 32 || a == 64 || a == 128,
            m == 1 || m == 2 || m == 4 || m == 8 || m == 16 || m == 32 || m == 64 || m == 128,
    ;
}

/// Two bytes that agree on every bit are equal.
pub proof fn lemma_bits_ext(a: u8, b: u8)
    requires
        (a & 1 != 0) == (b & 1 != 0),
        (a & 2 != 0) == (b & 2 != 0),
        (a & 4 != 0) == (b & 4 != 0),
        (a & 8 != 0) == (b & 8 != 0),
        (a & 16 != 0) == (b & 16 != 0),
        (a & 32 != 0) == (b & 32 != 0),
        (a & 64 != 0) == (b & 64 != 0),
        (a & 128 != 0) == (b & 128 != 0),
    ensures
        a == b,
{
    assert(a == b) by (bit_vector)
        requires
            (a & 1 != 0) == (b & 1 != 0),
            (a & 2 != 0) == (b & 2 != 0),
            (a & 4 != 0) == (b & 4 != 0),
            (a & 8 != 0) == (b & 8 != 0),
            (a & 16 != 0) == (b & 16 != 0),
            (a & 32 != 0) == (b & 32 != 0),
            (a & 64 != 0) == (b & 64 != 0),
            (a & 128 != 0) == (b & 128 != 0),
    ;
}

} // verus!
