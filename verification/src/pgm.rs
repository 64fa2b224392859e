//! The greyscale image a headless run can leave behind: binary PGM.
//!
//! One byte per sample rather than RGB triplets: the data is greyscale, so
//! three identical bytes per sample would be two thirds waste. What each byte
//! holds is the caller's; this module owns the framing.

use vstd::prelude::*;

verus! {

/// The decimal digits of `n`, most significant first, as ASCII bytes.
pub open spec fn decimal(n: nat) -> Seq<u8>
    decreases n,
{
    if n < 10 {
        seq![(48 + n) as u8]
    } else {
        decimal(n / 10).push((48 + n % 10) as u8)
    }
}

/// The header of a binary greyscale image `cols` samples across and `rows`
/// down, with 255 as the brightest value: `P5`, the dimensions, the maximum,
/// each on its own line.
pub open spec fn header(cols: nat, rows: nat) -> Seq<u8> {
    seq![80u8, 53u8, 10u8] + decimal(cols) + seq![32u8] + decimal(rows) + seq![10u8, 50u8, 53u8, 53u8, 10u8]
}

/// Append the decimal digits of `n` to `out`.
pub fn push_decimal(out: &mut Vec<u8>, n: usize)
    ensures
        final(out)@ == old(out)@ + decimal(n as nat),
    decreases n,
{
    if n >= 10 {
        push_decimal(out, n / 10);
    }
    out.push((48 + n % 10) as u8);
    proof {
        if n < 10 {
            assert(n % 10 == n);
        }
    }
}

/// The whole image: the header for `cols × rows`, then `values` as the
/// samples, row-major.
pub fn encode(cols: usize, rows: usize, values: &[u8]) -> (bytes: Vec<u8>)
    ensures
        bytes@ == header(cols as nat, rows as nat) + values@,
{
    let mut bytes: Vec<u8> = Vec::new();
    bytes.push(80u8);
    bytes.push(53u8);
    bytes.push(10u8);
    push_decimal(&mut bytes, cols);
    bytes.push(32u8);
    push_decimal(&mut bytes, rows);
    bytes.push(10u8);
    bytes.push(50u8);
    bytes.push(53u8);
    bytes.push(53u8);
    bytes.push(10u8);
    let ghost head = bytes@;
    assert(head =~= header(cols as nat, rows as nat));
    let mut i: usize = 0;
    while i < values.len()
        invariant
            i <= values@.len(),
            bytes@ == head + values@.subrange(0, i as int),
        decreases values@.len() - i,
    {
        bytes.push(values[i]);
        i = i + 1;
        assert(bytes@ =~= head + values@.subrange(0, i as int));
    }
    assert(values@.subrange(0, values@.len() as int) =~= values@);
    bytes
}

/// A `cols × rows` image carries exactly one byte per sample after its
/// header.
pub proof fn lemma_one_byte_per_sample(cols: nat, rows: nat, values: Seq<u8>)
    requires
        values.len() == cols * rows,
    ensures
        (header(cols, rows) + values).len() == header(cols, rows).len() + cols * rows,
        (header(cols, rows) + values).subrange(0, header(cols, rows).len() as int) == header(cols, rows),
{
    assert((header(cols, rows) + values).subrange(0, header(cols, rows).len() as int) =~= header(cols, rows));
}

} // verus!
