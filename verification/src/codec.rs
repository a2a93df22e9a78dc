//! Little-endian integers in byte strings.
//!
//! `le_bytes` and `le_value` say what the encoding of a number is; the
//! executable functions append and read such encodings, and the lemmas show
//! that the two spec functions undo each other.

use vstd::prelude::*;

verus! {

/// The first `width` bytes of `value` written base 256, lowest digit first.
pub open spec fn le_bytes(value: nat, width: nat) -> Seq<u8>
    decreases width,
{
    if width == 0 {
        Seq::empty()
    } else {
        seq![(value % 256) as u8] + le_bytes(value / 256, (width - 1) as nat)
    }
}

/// The number that `bytes` spell base 256, lowest digit first.
pub open spec fn le_value(bytes: Seq<u8>) -> nat
    decreases bytes.len(),
{
    if bytes.len() == 0 {
        0
    } else {
        bytes[0] as nat + 256 * le_value(bytes.drop_first())
    }
}

/// The number of values that `width` bytes can spell: 256 to the power `width`.
pub open spec fn span(width: nat) -> nat
    decreases width,
{
    if width == 0 {
        1
    } else {
        256 * span((width - 1) as nat)
    }
}

/// The unsigned number that stands for `value` in 64-bit two's complement.
pub open spec fn twos_complement(value: i64) -> nat {
    if value < 0 {
        (value + 0x1_0000_0000_0000_0000) as nat
    } else {
        value as nat
    }
}

/// The signed number that `value` stands for in 64-bit two's complement.
pub open spec fn from_twos_complement(value: nat) -> int {
    if value >= 0x8000_0000_0000_0000 {
        value - 0x1_0000_0000_0000_0000
    } else {
        value as int
    }
}

/// The spans of the widths that the record layout uses.
pub proof fn lemma_spans()
    ensures
        span(0) == 1,
        span(1) == 0x100,
        span(2) == 0x1_0000,
        span(3) == 0x100_0000,
        span(4) == 0x1_0000_0000,
        span(5) == 0x100_0000_0000,
        span(6) == 0x1_0000_0000_0000,
        span(7) == 0x100_0000_0000_0000,
        span(8) == 0x1_0000_0000_0000_0000,
{
    reveal_with_fuel(span, 9);
}

/// An encoding has the width that was asked for.
pub proof fn lemma_le_bytes_len(value: nat, width: nat)
    ensures
        le_bytes(value, width).len() == width,
    decreases width,
{
    if width > 0 {
        lemma_le_bytes_len(value / 256, (width - 1) as nat);
    }
}

/// A byte string spells a number below the span of its length.
pub proof fn lemma_le_value_bound(bytes: Seq<u8>)
    ensures
        le_value(bytes) < span(bytes.len()),
    decreases bytes.len(),
{
    if bytes.len() > 0 {
        lemma_le_value_bound(bytes.drop_first());
    }
}

/// Reading an encoding gives the number back, if the width could hold it.
pub proof fn lemma_value_of_bytes(value: nat, width: nat)
    requires
        value < span(width),
    ensures
        le_value(le_bytes(value, width)) == value,
    decreases width,
{
    if width > 0 {
        let rest = le_bytes(value / 256, (width - 1) as nat);
        lemma_value_of_bytes(value / 256, (width - 1) as nat);
        lemma_le_bytes_len(value / 256, (width - 1) as nat);
        assert(le_bytes(value, width).drop_first() =~= rest);
    }
}

/// Encoding what a byte string spells, at the string's length, gives the string back.
pub proof fn lemma_bytes_of_value(bytes: Seq<u8>)
    ensures
        le_bytes(le_value(bytes), bytes.len()) == bytes,
    decreases bytes.len(),
{
    if bytes.len() > 0 {
        let rest = bytes.drop_first();
        lemma_bytes_of_value(rest);
        let value = le_value(bytes);
        assert(value % 256 == bytes[0] as nat && value / 256 == le_value(rest)) by {
            let q = le_value(rest);
            let r = bytes[0] as nat;
            assert(value == r + 256 * q);
            assert((r + 256 * q) % 256 == r && (r + 256 * q) / 256 == q) by (nonlinear_arith)
                requires
                    r < 256,
            ;
        }
        assert(le_bytes(value, bytes.len()) =~= bytes);
    }
}

/// Two's complement loses nothing.
pub proof fn lemma_twos_complement(value: i64)
    ensures
        twos_complement(value) < span(8),
        from_twos_complement(twos_complement(value)) == value,
{
    lemma_spans();
}

/// Appends `bytes` as they are.
pub fn append_bytes(out: &mut Vec<u8>, bytes: &[u8])
    ensures
        final(out)@ == old(out)@ + bytes@,
{
    let mut copied: usize = 0;
    while copied < bytes.len()
        invariant
            copied <= bytes@.len(),
            out@ == old(out)@ + bytes@.subrange(0, copied as int),
        decreases bytes@.len() - copied,
    {
        out.push(bytes[copied]);
        copied = copied + 1;
    }
    assert(bytes@.subrange(0, copied as int) =~= bytes@);
}

/// Appends the `width` lowest bytes of `value`, lowest first.
pub fn append_le(out: &mut Vec<u8>, value: u64, width: usize)
    ensures
        final(out)@ == old(out)@ + le_bytes(value as nat, width as nat),
{
    let mut rest: u64 = value;
    let mut written: usize = 0;
    while written < width
        invariant
            written <= width,
            out@ + le_bytes(rest as nat, (width - written) as nat) == old(out)@ + le_bytes(
                value as nat,
                width as nat,
            ),
        decreases width - written,
    {
        let ghost before = out@;
        let ghost tail = le_bytes((rest / 256) as nat, (width - written - 1) as nat);
        out.push((rest % 256) as u8);
        assert(out@ + tail =~= before + le_bytes(rest as nat, (width - written) as nat));
        rest = rest / 256;
        written = written + 1;
    }
    assert(out@ + le_bytes(rest as nat, 0) =~= out@);
}

/// Reads the number that the `width` bytes from `at` on spell.
pub fn read_le(bytes: &[u8], at: usize, width: usize) -> (value: u64)
    requires
        width <= 8,
        at + width <= bytes@.len(),
    ensures
        value == le_value(bytes@.subrange(at as int, at + width)),
{
    let len = bytes.len();
    let mut value: u64 = 0;
    let mut left: usize = width;
    while left > 0
        invariant
            left <= width <= 8,
            at + width <= bytes@.len() == len,
            value == le_value(bytes@.subrange(at + left, at + width)),
        decreases left,
    {
        let ghost higher = bytes@.subrange(at + left, at + width);
        left = left - 1;
        let ghost here = bytes@.subrange(at + left, at + width);
        proof {
            lemma_le_value_bound(higher);
            lemma_spans();
            assert(span(higher.len()) <= span(7)) by {
                lemma_span_grows(higher.len(), 7);
            }
            assert(here.drop_first() =~= higher);
        }
        value = value * 256 + bytes[at + left] as u64;
    }
    value
}

/// A wider string can spell at least as many values.
pub proof fn lemma_span_grows(narrow: nat, wide: nat)
    requires
        narrow <= wide,
    ensures
        span(narrow) <= span(wide),
    decreases wide,
{
    if narrow < wide {
        lemma_span_grows(narrow, (wide - 1) as nat);
    }
}

/// The unsigned number that stands for `value` in two's complement.
pub fn to_unsigned(value: i64) -> (raw: u64)
    ensures
        raw == twos_complement(value),
{
    if value < 0 {
        let shifted: i64 = (value + i64::MAX) + 1;
        shifted as u64 + 0x8000_0000_0000_0000
    } else {
        value as u64
    }
}

/// The signed number that `raw` stands for in two's complement.
pub fn to_signed(raw: u64) -> (value: i64)
    ensures
        value == from_twos_complement(raw as nat),
        twos_complement(value) == raw,
{
    if raw >= 0x8000_0000_0000_0000 {
        let low: u64 = raw - 0x8000_0000_0000_0000;
        low as i64 + i64::MIN
    } else {
        raw as i64
    }
}

} // verus!
