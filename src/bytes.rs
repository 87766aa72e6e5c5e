use vstd::prelude::*;

verus! {

/// The unsigned value of the first eight bytes of `b`, least significant first.
pub open spec fn le_value(b: Seq<u8>) -> int
    recommends
        b.len() >= 8,
{
    b[0] + 0x100 * b[1] + 0x1_0000 * b[2] + 0x100_0000 * b[3] + 0x1_0000_0000 * b[4]
        + 0x100_0000_0000 * b[5] + 0x1_0000_0000_0000 * b[6] + 0x100_0000_0000_0000 * b[7]
}

/// The eight-byte little-endian encoding of `x`.
pub open spec fn le_bytes(x: u64) -> Seq<u8> {
    seq![
        (x & 0xff) as u8,
        ((x >> 8) & 0xff) as u8,
        ((x >> 16) & 0xff) as u8,
        ((x >> 24) & 0xff) as u8,
        ((x >> 32) & 0xff) as u8,
        ((x >> 40) & 0xff) as u8,
        ((x >> 48) & 0xff) as u8,
        ((x >> 56) & 0xff) as u8,
    ]
}

proof fn lemma_bytes_recompose(x: u64)
    ensures
        x as int == ((x & 0xff) as u8) + 0x100 * (((x >> 8) & 0xff) as u8) + 0x1_0000 * (((x
            >> 16) & 0xff) as u8) + 0x100_0000 * (((x >> 24) & 0xff) as u8) + 0x1_0000_0000 * (((
        x >> 32) & 0xff) as u8) + 0x100_0000_0000 * (((x >> 40) & 0xff) as u8)
            + 0x1_0000_0000_0000 * (((x >> 48) & 0xff) as u8) + 0x100_0000_0000_0000 * (((x
            >> 56) & 0xff) as u8),
{
    assert({
        &&& (x & 0xff) <= 0xff
        &&& ((x >> 8) & 0xff) <= 0xff
        &&& ((x >> 16) & 0xff) <= 0xff
        &&& ((x >> 24) & 0xff) <= 0xff
        &&& ((x >> 32) & 0xff) <= 0xff
        &&& ((x >> 40) & 0xff) <= 0xff
        &&& ((x >> 48) & 0xff) <= 0xff
        &&& ((x >> 56) & 0xff) <= 0xff
    }) by (bit_vector);
    assert(x == (x & 0xff) + 0x100 * ((x >> 8) & 0xff) + 0x1_0000 * ((x >> 16) & 0xff)
        + 0x100_0000 * ((x >> 24) & 0xff) + 0x1_0000_0000 * ((x >> 32) & 0xff) + 0x100_0000_0000
        * ((x >> 40) & 0xff) + 0x1_0000_0000_0000 * ((x >> 48) & 0xff) + 0x100_0000_0000_0000 * ((
    x >> 56) & 0xff)) by (bit_vector);
}

/// Encoding a value and reading it back gives the value.
pub proof fn lemma_le_round_trip(x: u64)
    ensures
        le_bytes(x).len() == 8,
        le_value(le_bytes(x)) == x as int,
{
    lemma_bytes_recompose(x);
}

/// Reading eight bytes and encoding the value gives the bytes back.
pub proof fn lemma_le_bytes_of_value(b: Seq<u8>)
    requires
        b.len() == 8,
    ensures
        0 <= le_value(b) <= u64::MAX,
        le_bytes(le_value(b) as u64) == b,
{
    let (b0, b1, b2, b3, b4, b5, b6, b7) = (b[0], b[1], b[2], b[3], b[4], b[5], b[6], b[7]);
    let x: u64 = le_value(b) as u64;
    assert(x == b0 as u64 + 0x100 * (b1 as u64) + 0x1_0000 * (b2 as u64) + 0x100_0000 * (
    b3 as u64) + 0x1_0000_0000 * (b4 as u64) + 0x100_0000_0000 * (b5 as u64) + 0x1_0000_0000_0000
        * (b6 as u64) + 0x100_0000_0000_0000 * (b7 as u64));
    assert({
        &&& ((x & 0xff) as u8) == b0
        &&& (((x >> 8) & 0xff) as u8) == b1
        &&& (((x >> 16) & 0xff) as u8) == b2
        &&& (((x >> 24) & 0xff) as u8) == b3
        &&& (((x >> 32) & 0xff) as u8) == b4
        &&& (((x >> 40) & 0xff) as u8) == b5
        &&& (((x >> 48) & 0xff) as u8) == b6
        &&& (((x >> 56) & 0xff) as u8) == b7
    }) by (bit_vector)
        requires
            x == b0 as u64 + 0x100 * (b1 as u64) + 0x1_0000 * (b2 as u64) + 0x100_0000 * (
            b3 as u64) + 0x1_0000_0000 * (b4 as u64) + 0x100_0000_0000 * (b5 as u64)
                + 0x1_0000_0000_0000 * (b6 as u64) + 0x100_0000_0000_0000 * (b7 as u64),
    ;
    assert(le_bytes(x) =~= b);
}

/// Reads the little-endian `u64` held by `b[at..at + 8]`.
pub fn read_u64_le(b: &[u8], at: usize) -> (r: u64)
    requires
        at + 8 <= b@.len(),
    ensures
        r as int == le_value(b@.subrange(at as int, at + 8)),
{
    let r: u64 = b[at] as u64 + 0x100 * (b[at + 1] as u64) + 0x1_0000 * (b[at + 2] as u64)
        + 0x100_0000 * (b[at + 3] as u64) + 0x1_0000_0000 * (b[at + 4] as u64) + 0x100_0000_0000
        * (b[at + 5] as u64) + 0x1_0000_0000_0000 * (b[at + 6] as u64) + 0x100_0000_0000_0000 * (
    b[at + 7] as u64);
    r
}

/// Appends the little-endian encoding of `x` to `out`.
pub fn push_u64_le(out: &mut Vec<u8>, x: u64)
    ensures
        final(out)@ == old(out)@ + le_bytes(x),
{
    out.push((x & 0xff) as u8);
    out.push(((x >> 8) & 0xff) as u8);
    out.push(((x >> 16) & 0xff) as u8);
    out.push(((x >> 24) & 0xff) as u8);
    out.push(((x >> 32) & 0xff) as u8);
    out.push(((x >> 40) & 0xff) as u8);
    out.push(((x >> 48) & 0xff) as u8);
    out.push(((x >> 56) & 0xff) as u8);
    assert(out@ =~= old(out)@ + le_bytes(x));
}

} // verus!
