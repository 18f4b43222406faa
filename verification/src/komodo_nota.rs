//! The back-notarisation record that a notary transaction carries in the
//! script of its last output.
//!
//! The layout, byte for byte:
//!
//! | offset | length | field                                   |
//! |--------|--------|-----------------------------------------|
//! | 0      | 1      | version tag, [`NOTA_VERSION_TAG`]       |
//! | 1      | 4      | notarised height, little-endian         |
//! | 5      | 32     | hash of the notarised block             |
//! | 37     | rest   | payload, kept as it is                  |
use vstd::prelude::*;
use vstd::arithmetic::div_mod::lemma_fundamental_div_mod_converse;
use crate::block::{self, Height};
use crate::serialization::copy_bytes;

verus! {

/// The tag that opens every record of this layout: the script opcode that
/// marks an output as a carrier of data.
pub const NOTA_VERSION_TAG: u8 = 0x6a;

/// The number of bytes before the payload: tag, height and hash.
pub const NOTA_FIXED_LEN: usize = 37;

/// A back-notarisation: the claim that the block at `notarised_height` with
/// hash `notarised_block_hash` was notarised, with whatever else the notaries
/// recorded kept as raw bytes.
#[derive(Debug, PartialEq, Eq)]
pub struct BackNotarisationData {
    pub notarised_height: Height,
    pub notarised_block_hash: block::Hash,
    /// Everything after the hash, byte for byte.
    pub payload: Vec<u8>,
}

/// What a [`BackNotarisationData`] holds.
pub struct BackNotarisationView {
    pub notarised_height: Height,
    pub notarised_block_hash: block::Hash,
    pub payload: Seq<u8>,
}

/// Why a byte string is no back-notarisation record.
#[derive(Clone, Copy, Debug, PartialEq, Eq, Structural)]
pub enum NotaDecodeError {
    /// Fewer than [`NOTA_FIXED_LEN`] bytes.
    TooShort,
    /// The first byte is not [`NOTA_VERSION_TAG`].
    BadVersionTag,
}

impl View for BackNotarisationData {
    type V = BackNotarisationView;

    open spec fn view(&self) -> BackNotarisationView {
        BackNotarisationView {
            notarised_height: self.notarised_height,
            notarised_block_hash: self.notarised_block_hash,
            payload: self.payload@,
        }
    }
}

impl Clone for BackNotarisationData {
    fn clone(&self) -> (r: Self)
        ensures
            r@ == self@,
    {
        BackNotarisationData {
            notarised_height: self.notarised_height,
            notarised_block_hash: self.notarised_block_hash,
            payload: copy_bytes(&self.payload),
        }
    }
}

/// The four bytes of `x`, lowest first.
pub open spec fn spec_u32_le(x: u32) -> Seq<u8> {
    seq![
        (x % 256) as u8,
        ((x / 256) % 256) as u8,
        ((x / 65536) % 256) as u8,
        (x / 16777216) as u8,
    ]
}

/// The number whose four bytes, lowest first, are `b0`, `b1`, `b2`, `b3`.
pub open spec fn spec_u32_from_le(b0: u8, b1: u8, b2: u8, b3: u8) -> int {
    b0 + 256 * b1 + 65536 * b2 + 16777216 * b3
}

/// The bytes of a record.
pub open spec fn spec_encode(record: BackNotarisationView) -> Seq<u8> {
    seq![NOTA_VERSION_TAG] + spec_u32_le(record.notarised_height.0)
        + record.notarised_block_hash.0@ + record.payload
}

/// Why `bytes` is no record, or `None` where it is one.
pub open spec fn spec_decode_error(bytes: Seq<u8>) -> Option<NotaDecodeError> {
    if bytes.len() < NOTA_FIXED_LEN {
        Some(NotaDecodeError::TooShort)
    } else if bytes[0] != NOTA_VERSION_TAG {
        Some(NotaDecodeError::BadVersionTag)
    } else {
        None
    }
}

/// Whether `bytes` is a record and `record` is what it holds.
pub open spec fn spec_decodes_to(bytes: Seq<u8>, record: BackNotarisationView) -> bool {
    &&& spec_decode_error(bytes) is None
    &&& record.notarised_height.0 == spec_u32_from_le(bytes[1], bytes[2], bytes[3], bytes[4])
    &&& record.notarised_block_hash.0@ == bytes.subrange(5, NOTA_FIXED_LEN as int)
    &&& record.payload == bytes.subrange(NOTA_FIXED_LEN as int, bytes.len() as int)
}

/// A record with another target and the same payload.
pub open spec fn spec_patch(
    record: BackNotarisationView,
    new_height: Height,
    new_hash: block::Hash,
) -> BackNotarisationView {
    BackNotarisationView {
        notarised_height: new_height,
        notarised_block_hash: new_hash,
        payload: record.payload,
    }
}

impl BackNotarisationData {
    /// Whether the bytes of the record fit in memory.
    pub open spec fn spec_fits(record: BackNotarisationView) -> bool {
        NOTA_FIXED_LEN + record.payload.len() <= usize::MAX
    }

    /// Reads a record from the bytes of a script.
    ///
    /// Fails on fewer than [`NOTA_FIXED_LEN`] bytes and on bytes that do not
    /// open with [`NOTA_VERSION_TAG`], and on nothing else.
    pub fn decode(bytes: &[u8]) -> (r: Result<BackNotarisationData, NotaDecodeError>)
        ensures
            match r {
                Ok(record) => spec_decodes_to(bytes@, record@),
                Err(e) => spec_decode_error(bytes@) == Some(e),
            },
    {
        if bytes.len() < NOTA_FIXED_LEN {
            return Err(NotaDecodeError::TooShort);
        }
        if bytes[0] != NOTA_VERSION_TAG {
            return Err(NotaDecodeError::BadVersionTag);
        }
        let b0: u32 = bytes[1] as u32;
        let b1: u32 = bytes[2] as u32;
        let b2: u32 = bytes[3] as u32;
        let b3: u32 = bytes[4] as u32;
        let height: u32 = b0 + 256 * b1 + 65536 * b2 + 16777216 * b3;
        let mut hash: [u8; 32] = [0u8; 32];
        let mut i: usize = 0;
        while i < 32
            invariant
                i <= 32,
                bytes.len() >= NOTA_FIXED_LEN,
                forall|j: int| 0 <= j < i ==> hash[j] == bytes@[5 + j],
            decreases 32 - i,
        {
            hash[i] = bytes[5 + i];
            i = i + 1;
        }
        let mut payload: Vec<u8> = Vec::new();
        let mut k: usize = NOTA_FIXED_LEN;
        while k < bytes.len()
            invariant
                NOTA_FIXED_LEN <= k <= bytes.len(),
                payload@ == bytes@.subrange(NOTA_FIXED_LEN as int, k as int),
            decreases bytes.len() - k,
        {
            payload.push(bytes[k]);
            k = k + 1;
        }
        assert(hash@ =~= bytes@.subrange(5, NOTA_FIXED_LEN as int));
        Ok(
            BackNotarisationData {
                notarised_height: Height(height),
                notarised_block_hash: block::Hash(hash),
                payload,
            },
        )
    }

    /// Writes the record as bytes.
    pub fn encode(&self) -> (r: Vec<u8>)
        requires
            Self::spec_fits(self@),
        ensures
            r@ == spec_encode(self@),
    {
        let h: u32 = self.notarised_height.0;
        let mut out: Vec<u8> = Vec::new();
        out.push(NOTA_VERSION_TAG);
        out.push((h % 256) as u8);
        out.push(((h / 256) % 256) as u8);
        out.push(((h / 65536) % 256) as u8);
        out.push((h / 16777216) as u8);
        let mut i: usize = 0;
        while i < 32
            invariant
                i <= 32,
                out@ == seq![NOTA_VERSION_TAG] + spec_u32_le(h)
                    + self.notarised_block_hash.0@.subrange(0, i as int),
            decreases 32 - i,
        {
            out.push(self.notarised_block_hash.0[i]);
            i = i + 1;
        }
        assert(self.notarised_block_hash.0@.subrange(0, 32) == self.notarised_block_hash.0@);
        let mut k: usize = 0;
        while k < self.payload.len()
            invariant
                k <= self.payload.len(),
                out@ == seq![NOTA_VERSION_TAG] + spec_u32_le(h) + self.notarised_block_hash.0@
                    + self.payload@.subrange(0, k as int),
            decreases self.payload.len() - k,
        {
            out.push(self.payload[k]);
            k = k + 1;
        }
        assert(self.payload@.subrange(0, self.payload.len() as int) == self.payload@);
        out
    }

    /// The record with another target: only the height and the hash change.
    pub fn patch(&self, new_height: Height, new_hash: block::Hash) -> (r: BackNotarisationData)
        ensures
            r@ == spec_patch(self@, new_height, new_hash),
            r@.payload == self@.payload,
    {
        BackNotarisationData {
            notarised_height: new_height,
            notarised_block_hash: new_hash,
            payload: copy_bytes(&self.payload),
        }
    }
}

/// Reading what was written gives the record back: the bytes of any record
/// decode, and to that record only.
pub proof fn lemma_decode_encode(record: BackNotarisationView, decoded: BackNotarisationView)
    requires
        spec_decodes_to(spec_encode(record), decoded),
    ensures
        decoded == record,
{
    let bytes = spec_encode(record);
    let h = record.notarised_height.0;
    assert(bytes[1] == spec_u32_le(h)[0]);
    assert(bytes[2] == spec_u32_le(h)[1]);
    assert(bytes[3] == spec_u32_le(h)[2]);
    assert(bytes[4] == spec_u32_le(h)[3]);
    assert(bytes.subrange(5, NOTA_FIXED_LEN as int) =~= record.notarised_block_hash.0@);
    assert(bytes.subrange(NOTA_FIXED_LEN as int, bytes.len() as int) =~= record.payload);
    assert(decoded.notarised_block_hash.0 =~= record.notarised_block_hash.0);
}

/// The bytes of any record are accepted by the decoder.
pub proof fn lemma_encode_decodes(record: BackNotarisationView)
    ensures
        spec_decode_error(spec_encode(record)) is None,
        spec_decodes_to(spec_encode(record), record),
{
    let bytes = spec_encode(record);
    let h = record.notarised_height.0;
    assert(bytes[0] == NOTA_VERSION_TAG);
    assert(bytes[1] == spec_u32_le(h)[0]);
    assert(bytes[2] == spec_u32_le(h)[1]);
    assert(bytes[3] == spec_u32_le(h)[2]);
    assert(bytes[4] == spec_u32_le(h)[3]);
    assert(bytes.subrange(5, NOTA_FIXED_LEN as int) =~= record.notarised_block_hash.0@);
    assert(bytes.subrange(NOTA_FIXED_LEN as int, bytes.len() as int) =~= record.payload);
}

/// Four bytes, read lowest first as a number and written back, are the
/// same four bytes.
pub proof fn lemma_u32_le_of_bytes(b0: u8, b1: u8, b2: u8, b3: u8)
    ensures
        0 <= spec_u32_from_le(b0, b1, b2, b3) <= u32::MAX,
        spec_u32_le(spec_u32_from_le(b0, b1, b2, b3) as u32) == seq![b0, b1, b2, b3],
{
    let x = spec_u32_from_le(b0, b1, b2, b3);
    let q1: int = b1 + 256 * b2 + 65536 * b3;
    let q2: int = b2 + 256 * b3;
    lemma_fundamental_div_mod_converse(x, 256, q1, b0 as int);
    lemma_fundamental_div_mod_converse(q1, 256, q2, b1 as int);
    lemma_fundamental_div_mod_converse(q2, 256, b3 as int, b2 as int);
    lemma_fundamental_div_mod_converse(x, 65536, q2, b0 + 256 * b1);
    lemma_fundamental_div_mod_converse(x, 16777216, b3 as int, b0 + 256 * b1 + 65536 * b2);
    assert(spec_u32_le(x as u32) =~= seq![b0, b1, b2, b3]);
}

/// The layout is canonical: a record's bytes are the only bytes that decode
/// to it.
pub proof fn lemma_encode_decode(bytes: Seq<u8>, record: BackNotarisationView)
    requires
        spec_decodes_to(bytes, record),
    ensures
        spec_encode(record) == bytes,
{
    lemma_u32_le_of_bytes(bytes[1], bytes[2], bytes[3], bytes[4]);
    let encoded = spec_encode(record);
    let le = spec_u32_le(record.notarised_height.0);
    assert(le == seq![bytes[1], bytes[2], bytes[3], bytes[4]]);
    assert(encoded.len() == bytes.len());
    assert forall|i: int| 0 <= i < bytes.len() implies encoded[i] == bytes[i] by {
        if i == 0 {
        } else if i < 5 {
            assert(encoded[i] == le[i - 1]);
        } else if i < NOTA_FIXED_LEN {
            assert(encoded[i] == record.notarised_block_hash.0@[i - 5]);
            assert(bytes.subrange(5, NOTA_FIXED_LEN as int)[i - 5] == bytes[i]);
        } else {
            assert(encoded[i] == record.payload[i - NOTA_FIXED_LEN]);
            assert(bytes.subrange(NOTA_FIXED_LEN as int, bytes.len() as int)[i - NOTA_FIXED_LEN]
                == bytes[i]);
        }
    }
    assert(encoded =~= bytes);
}

/// Patching touches the target only: the patched record has the new height
/// and the new hash, and its bytes are as many as before and the same from
/// the payload on.
pub proof fn lemma_patch_keeps_payload(
    record: BackNotarisationView,
    new_height: Height,
    new_hash: block::Hash,
)
    ensures
        spec_patch(record, new_height, new_hash).payload == record.payload,
        spec_patch(record, new_height, new_hash).notarised_height == new_height,
        spec_patch(record, new_height, new_hash).notarised_block_hash == new_hash,
        spec_encode(spec_patch(record, new_height, new_hash)).len() == spec_encode(record).len(),
        spec_encode(spec_patch(record, new_height, new_hash)).subrange(
            NOTA_FIXED_LEN as int,
            spec_encode(record).len() as int,
        ) == spec_encode(record).subrange(NOTA_FIXED_LEN as int, spec_encode(record).len() as int),
{
    let a = spec_encode(spec_patch(record, new_height, new_hash));
    let b = spec_encode(record);
    assert(a.subrange(NOTA_FIXED_LEN as int, b.len() as int) =~= b.subrange(
        NOTA_FIXED_LEN as int,
        b.len() as int,
    ));
}

} // verus!
