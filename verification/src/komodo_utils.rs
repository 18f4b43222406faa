//! Public keys, hex text and pay-to-public-key scripts.
use vstd::prelude::*;
use vstd::string::StringSliceAdditionalSpecFns;
use crate::transparent::Script;

verus! {

/// The number of bytes of a public key in compressed form.
pub const PUBLIC_KEY_SIZE: usize = 33;

/// The script opcode that checks a signature against a public key.
pub const OP_CHECKSIG: u8 = 0xac;

/// The script opcode that pushes the next 33 bytes.
pub const OP_PUSH_33: u8 = 0x21;

/// The number of bytes of a pay-to-public-key script for a compressed key.
pub const P2PK_SCRIPT_SIZE: usize = 35;

/// The value of a hex digit, upper or lower case; none for any other byte.
pub open spec fn spec_hex_digit(c: u8) -> Option<u8> {
    if 48 <= c <= 57 {
        Some((c - 48) as u8)
    } else if 97 <= c <= 102 {
        Some((c - 87) as u8)
    } else if 65 <= c <= 70 {
        Some((c - 55) as u8)
    } else {
        None
    }
}

/// Whether `text` is hex text: an even number of hex digits.
pub open spec fn spec_is_hex(text: Seq<u8>) -> bool {
    &&& text.len() % 2 == 0
    &&& forall|i: int| 0 <= i < text.len() ==> spec_hex_digit(#[trigger] text[i]) is Some
}

/// The bytes that hex text stands for: one for each pair of digits, the
/// first digit of a pair being the high half.
pub open spec fn spec_hex_decode(text: Seq<u8>) -> Seq<u8> {
    Seq::new(
        text.len() / 2,
        |i: int|
            (16 * spec_hex_digit(text[2 * i])->Some_0 + spec_hex_digit(text[2 * i + 1])->Some_0) as u8,
    )
}

/// Calls `hex::decode`. The contract says what that function documents: text
/// of an even number of hex digits, in either case, decodes to one byte for
/// each pair of digits, high half first, and any other text is refused.
#[verifier::external_body]
pub(crate) fn hex_decode(text: &[u8]) -> (r: Option<Vec<u8>>)
    ensures
        match r {
            Some(bytes) => spec_is_hex(text@) && bytes@ == spec_hex_decode(text@),
            None => !spec_is_hex(text@),
        },
{
    hex::decode(text).ok()
}

/// The compressed form of the secp256k1 public key that `data` encodes, or
/// none where `data` encodes no key: what `secp256k1::PublicKey::from_slice`
/// followed by `serialize` gives.
pub uninterp spec fn secp256k1_compressed(data: Seq<u8>) -> Option<Seq<u8>>;

/// Calls `secp256k1::PublicKey::from_slice` and, on a key,
/// `secp256k1::PublicKey::serialize`. Whether bytes encode a point of the
/// curve is left to the outside crate: the contract names the result and
/// says no more of it than that it depends on the bytes alone.
#[verifier::external_body]
pub(crate) fn secp256k1_parse(data: &[u8]) -> (r: Option<[u8; 33]>)
    ensures
        match r {
            Some(key) => secp256k1_compressed(data@) == Some(key@),
            None => secp256k1_compressed(data@) is None,
        },
{
    match secp256k1::PublicKey::from_slice(data) {
        Ok(key) => Some(key.serialize()),
        Err(_) => None,
    }
}

/// The error of bytes that encode no public key.
#[derive(Clone, Copy, Debug, PartialEq, Eq, Structural)]
pub struct InvalidPublicKey;

/// A secp256k1 public key, held in its compressed form.
///
/// Two keys are equal where they are the same point of the curve, that is
/// where their compressed forms are the same bytes.
#[derive(Clone, Copy, Debug, PartialEq, Eq, Hash)]
pub struct PublicKey {
    compressed: [u8; 33],
}

impl View for PublicKey {
    type V = Seq<u8>;

    closed spec fn view(&self) -> Seq<u8> {
        self.compressed@
    }
}

impl PublicKey {
    /// Keys with the same bytes are the same key.
    pub proof fn lemma_view_decides(a: PublicKey, b: PublicKey)
        ensures
            a@ == b@ <==> a == b,
            a@.len() == PUBLIC_KEY_SIZE,
    {
        if a@ == b@ {
            assert(a.compressed =~= b.compressed);
        }
    }

    /// Reads a key from its compressed or uncompressed encoding.
    pub fn from_slice(data: &[u8]) -> (r: Result<PublicKey, InvalidPublicKey>)
        ensures
            match r {
                Ok(key) => secp256k1_compressed(data@) == Some(key@),
                Err(_) => secp256k1_compressed(data@) is None,
            },
    {
        match secp256k1_parse(data) {
            Some(compressed) => Ok(PublicKey { compressed }),
            None => Err(InvalidPublicKey),
        }
    }

    /// The 33 bytes of the compressed form.
    pub fn serialize(&self) -> (r: [u8; 33])
        ensures
            r@ == self@,
    {
        self.compressed
    }

    /// Tells whether two keys are the same key.
    pub fn same(&self, other: &PublicKey) -> (r: bool)
        ensures
            r == (*self == *other),
            r == (self@ == other@),
    {
        let mut i: usize = 0;
        while i < 33
            invariant
                i <= 33,
                forall|j: int| 0 <= j < i ==> self.compressed[j] == other.compressed[j],
            decreases 33 - i,
        {
            if self.compressed[i] != other.compressed[i] {
                return false;
            }
            i = i + 1;
        }
        assert(self.compressed =~= other.compressed);
        true
    }
}

/// The key that hex text stands for: none where the text is no hex text or
/// its bytes encode no key.
pub open spec fn spec_key_of_hex(text: Seq<u8>) -> Option<Seq<u8>> {
    if spec_is_hex(text) {
        secp256k1_compressed(spec_hex_decode(text))
    } else {
        None
    }
}

/// Reads a key from the hex text of its encoding.
pub fn public_key_from_hex(text: &str) -> (r: Option<PublicKey>)
    ensures
        match r {
            Some(key) => spec_key_of_hex(text.spec_bytes()) == Some(key@),
            None => spec_key_of_hex(text.spec_bytes()) is None,
        },
{
    match hex_decode(text.as_bytes()) {
        None => None,
        Some(bytes) => match PublicKey::from_slice(bytes.as_slice()) {
            Ok(key) => Some(key),
            Err(_) => None,
        },
    }
}

/// The key bytes of a canonical pay-to-public-key script: the script is the
/// push of 33 bytes, those bytes, and the signature check, and nothing else.
pub open spec fn spec_p2pk_key_bytes(script: Seq<u8>) -> Option<Seq<u8>> {
    if script.len() == P2PK_SCRIPT_SIZE && script[0] == OP_PUSH_33 && script[P2PK_SCRIPT_SIZE - 1]
        == OP_CHECKSIG {
        Some(script.subrange(1, P2PK_SCRIPT_SIZE - 1))
    } else {
        None
    }
}

/// The one key that a script pays to, where the script is a canonical
/// pay-to-public-key script and its key bytes encode a key.
pub open spec fn spec_parse_p2pk(script: Seq<u8>) -> Option<Seq<u8>> {
    match spec_p2pk_key_bytes(script) {
        Some(key_bytes) => secp256k1_compressed(key_bytes),
        None => None,
    }
}

/// Takes the public key out of a canonical pay-to-public-key script.
///
/// Any other script, and a script whose key bytes encode no key, gives none.
pub fn parse_p2pk(lock_script: &Script) -> (r: Option<PublicKey>)
    ensures
        match r {
            Some(key) => spec_parse_p2pk(lock_script@) == Some(key@),
            None => spec_parse_p2pk(lock_script@) is None,
        },
{
    let raw = lock_script.as_raw_bytes();
    if raw.len() != P2PK_SCRIPT_SIZE {
        return None;
    }
    if raw[0] != OP_PUSH_33 || raw[P2PK_SCRIPT_SIZE - 1] != OP_CHECKSIG {
        return None;
    }
    let mut key_bytes: Vec<u8> = Vec::new();
    let mut i: usize = 1;
    while i < P2PK_SCRIPT_SIZE - 1
        invariant
            1 <= i <= P2PK_SCRIPT_SIZE - 1,
            raw.len() == P2PK_SCRIPT_SIZE,
            key_bytes@ == raw@.subrange(1, i as int),
        decreases P2PK_SCRIPT_SIZE - 1 - i,
    {
        key_bytes.push(raw[i]);
        i = i + 1;
    }
    match PublicKey::from_slice(key_bytes.as_slice()) {
        Ok(key) => Some(key),
        Err(_) => None,
    }
}

} // verus!
