//! Times and byte strings as they go over the wire.
use vstd::prelude::*;

verus! {

/// A point in time, as whole seconds since the UNIX epoch in 32 bits.
#[derive(Clone, Copy, Debug, PartialEq, Eq, Structural, Hash)]
pub struct DateTime32 {
    pub timestamp: u32,
}

impl DateTime32 {
    /// Wraps a number of seconds since the epoch.
    pub fn from(timestamp: u32) -> (r: DateTime32)
        ensures
            r.timestamp == timestamp,
    {
        DateTime32 { timestamp }
    }

    /// The number of seconds since the epoch.
    pub fn timestamp(&self) -> (r: u32)
        ensures
            r == self.timestamp,
    {
        self.timestamp
    }
}

/// Copies a byte string.
pub fn copy_bytes(source: &Vec<u8>) -> (r: Vec<u8>)
    ensures
        r@ == source@,
{
    let mut out: Vec<u8> = Vec::new();
    let mut i: usize = 0;
    while i < source.len()
        invariant
            i <= source.len(),
            out@ == source@.subrange(0, i as int),
        decreases source.len() - i,
    {
        out.push(source[i]);
        i = i + 1;
    }
    assert(source@.subrange(0, source.len() as int) == source@);
    out
}

} // verus!
