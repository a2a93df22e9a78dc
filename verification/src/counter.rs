//! A counter of one byte, kept beside the profiles as the smallest example
//! of a record that operations change in place.
//!
//! Its stored form is an eight-byte header followed by the count.

use vstd::prelude::*;
use crate::codec::append_bytes;
use crate::error::TigerTrustError;

verus! {

/// Length of a stored counter in bytes.
pub const COUNTER_LEN: usize = 9;

/// The header of every stored counter: the first eight bytes of the SHA-256
/// digest of `account:Counter`.
pub const COUNTER_HEADER: [u8; 8] = [255, 176, 4, 245, 188, 253, 124, 25];

/// A counter that holds one byte.
#[derive(Clone, Copy, Debug, PartialEq, Eq, Structural)]
pub struct Counter {
    pub count: u8,
}

/// The record that an update of the counter works on.
#[derive(Clone, Copy, Debug, PartialEq, Eq, Structural)]
pub struct Update {
    pub counter: Counter,
}

/// The header of a stored counter as a byte string.
pub open spec fn counter_header() -> Seq<u8> {
    seq![255u8, 176, 4, 245, 188, 253, 124, 25]
}

/// The stored form of `counter`.
pub open spec fn counter_encoding(counter: Counter) -> Seq<u8> {
    counter_header() + seq![counter.count]
}

impl Counter {
    /// A counter that stands at zero.
    pub fn new() -> (counter: Counter)
        ensures
            counter.count == 0,
    {
        Counter { count: 0 }
    }

    /// Writes the counter in its stored form.
    pub fn serialize(&self) -> (out: Vec<u8>)
        ensures
            out@ == counter_encoding(*self),
            out@.len() == COUNTER_LEN,
    {
        let mut out: Vec<u8> = Vec::with_capacity(COUNTER_LEN);
        append_bytes(&mut out, COUNTER_HEADER.as_slice());
        assert(out@ =~= counter_header());
        out.push(self.count);
        out
    }

    /// Reads a counter from its stored form.  Fails with `CorruptRecord`
    /// where `bytes` has not exactly `COUNTER_LEN` bytes or does not start
    /// with the header.
    pub fn deserialize(bytes: &[u8]) -> (outcome: Result<Counter, TigerTrustError>)
        ensures
            match outcome {
                Ok(counter) => bytes@ == counter_encoding(counter),
                Err(e) => e == TigerTrustError::CorruptRecord && forall|counter: Counter|
                    bytes@ != counter_encoding(counter),
            },
    {
        if bytes.len() != COUNTER_LEN {
            return Err(TigerTrustError::CorruptRecord);
        }
        let mut i: usize = 0;
        while i < 8
            invariant
                i <= 8,
                bytes@.len() == COUNTER_LEN,
                forall|j: int| 0 <= j < i ==> bytes@[j] == counter_header()[j],
            decreases 8 - i,
        {
            if bytes[i] != COUNTER_HEADER[i] {
                assert forall|counter: Counter| bytes@ != counter_encoding(counter) by {
                    assert(counter_encoding(counter)[i as int] == counter_header()[i as int]);
                }
                return Err(TigerTrustError::CorruptRecord);
            }
            i = i + 1;
        }
        let counter = Counter { count: bytes[8] };
        assert(bytes@ =~= counter_encoding(counter));
        Ok(counter)
    }
}

/// Takes one from the counter, which must not stand at zero.
pub fn decrement(ctx: &mut Update)
    requires
        old(ctx).counter.count > 0,
    ensures
        final(ctx).counter.count == old(ctx).counter.count - 1,
{
    ctx.counter.count = ctx.counter.count - 1;
}

/// Adds one to the counter, which must not stand at its maximum.
pub fn increment(ctx: &mut Update)
    requires
        old(ctx).counter.count < u8::MAX,
    ensures
        final(ctx).counter.count == old(ctx).counter.count + 1,
{
    ctx.counter.count = ctx.counter.count + 1;
}

/// Sets the counter to `value`.
pub fn set(ctx: &mut Update, value: u8)
    ensures
        final(ctx).counter.count == value,
{
    ctx.counter.count = value;
}

} // verus!
