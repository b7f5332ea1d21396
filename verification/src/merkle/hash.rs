//! SHA-256 hashing with domain separation, and 32-byte hashes as hex text.

use sha2::{Digest, Sha256};

use vstd::prelude::*;
use vstd::string::StringSliceAdditionalSpecFns;

verus! {

/// Domain separation prefix for leaf nodes: `0x00`.
pub const LEAF_PREFIX: u8 = 0x00;

/// Domain separation prefix for internal tree nodes: `0x01`.
pub const NODE_PREFIX: u8 = 0x01;

/// Domain separation prefix for bagging mountain peaks: `0x02`.
pub const PEAK_PREFIX: u8 = 0x02;

/// A 32-byte cryptographic hash produced by SHA-256.
#[derive(Clone, Copy, Debug, PartialEq, Eq, Hash, PartialOrd, Ord, Default)]
pub struct Hash32(pub [u8; 32]);

/// Error returned when parsing a [`Hash32`] from an invalid hex string.
#[derive(Clone, Debug, PartialEq, Eq)]
pub enum HexError {
    /// Hex string length was not 64 characters (32 bytes).
    InvalidLength(usize),
    /// Hex string contained an invalid hexadecimal character.
    InvalidCharacter {
        /// The invalid character encountered.
        char: char,
        /// Byte offset in the input string.
        index: usize,
    },
}

impl View for Hash32 {
    type V = Seq<u8>;

    open spec fn view(&self) -> Seq<u8> {
        self.0@
    }
}

/// The SHA-256 digest of `data`.
pub uninterp spec fn spec_sha256(data: Seq<u8>) -> Seq<u8>;

/// SHA-256 of `data`.
///
/// Calls `sha2::Sha256::digest`. The result is named by [`spec_sha256`]:
/// it depends on `data` alone.
#[verifier::external_body]
fn sha256(data: &[u8]) -> (r: [u8; 32])
    ensures
        r@ == spec_sha256(data@),
{
    Sha256::digest(data).into()
}

/// The hash of a leaf: `Sha256(0x00 || data)`.
pub open spec fn leaf_hash_of(data: Seq<u8>) -> Seq<u8> {
    spec_sha256(seq![LEAF_PREFIX] + data)
}

/// The hash of an internal node: `Sha256(0x01 || left || right)`.
pub open spec fn node_hash_of(left: Seq<u8>, right: Seq<u8>) -> Seq<u8> {
    spec_sha256(seq![NODE_PREFIX] + left + right)
}

/// The hash of two bagged peaks: `Sha256(0x02 || left || right)`.
pub open spec fn peak_hash_of(left: Seq<u8>, right: Seq<u8>) -> Seq<u8> {
    spec_sha256(seq![PEAK_PREFIX] + left + right)
}

/// The all-zero hash.
pub open spec fn zero_hash() -> Seq<u8> {
    Seq::new(32, |i: int| 0u8)
}

/// Peaks bagged right to left: the last peak, then each peak to its left
/// combined with the bag of the peaks to its right.
pub open spec fn bag_of(peaks: Seq<Seq<u8>>) -> Seq<u8>
    decreases peaks.len(),
{
    if peaks.len() == 0 {
        zero_hash()
    } else if peaks.len() == 1 {
        peaks[0]
    } else {
        peak_hash_of(peaks[0], bag_of(peaks.drop_first()))
    }
}

/// The lowercase hexadecimal digit for a nibble.
pub open spec fn hex_digit(n: u8) -> char {
    if n < 10 {
        (48 + n) as char
    } else {
        (87 + n) as char
    }
}

/// Lowercase hexadecimal text of a byte sequence, two digits per byte.
pub open spec fn hex_of(bytes: Seq<u8>) -> Seq<char>
    decreases bytes.len(),
{
    if bytes.len() == 0 {
        Seq::empty()
    } else {
        hex_of(bytes.drop_last()).push(hex_digit(bytes.last() / 16)).push(hex_digit(bytes.last() % 16))
    }
}

/// The value of an ASCII hex digit, if it is one.
pub open spec fn nibble_of(b: u8) -> Option<u8> {
    if 48 <= b <= 57 {
        Some((b - 48) as u8)
    } else if 97 <= b <= 102 {
        Some((b - 87) as u8)
    } else if 65 <= b <= 70 {
        Some((b - 55) as u8)
    } else {
        None
    }
}

/// Whether every byte before `end` is a hex digit.
pub open spec fn all_hex(bytes: Seq<u8>, end: int) -> bool {
    forall|i: int| 0 <= i < end ==> (#[trigger] nibble_of(bytes[i])) is Some
}

/// The bytes that hex text of 64 digits decodes to.
pub open spec fn decoded(bytes: Seq<u8>) -> Seq<u8> {
    Seq::new(
        32,
        |i: int| (nibble_of(bytes[2 * i])->0 * 16 + nibble_of(bytes[2 * i + 1])->0) as u8,
    )
}

/// The result of parsing hex text given as its bytes.
pub open spec fn spec_from_hex(bytes: Seq<u8>) -> Result<Seq<u8>, HexError> {
    if bytes.len() != 64 {
        Err(HexError::InvalidLength(bytes.len() as usize))
    } else if exists|i: int| 0 <= i < 64 && nibble_of(bytes[i]) is None {
        let k = choose|k: int| 0 <= k < 64 && nibble_of(bytes[k]) is None && all_hex(bytes, k);
        Err(HexError::InvalidCharacter { char: bytes[k] as char, index: k as usize })
    } else {
        Ok(decoded(bytes))
    }
}

impl Hash32 {
    /// The all-zero hash, the root of an empty tree.
    pub fn zero() -> (r: Self)
        ensures
            r@ == zero_hash(),
    {
        let r = Hash32([0u8; 32]);
        assert(r@ =~= zero_hash());
        r
    }

    /// Create a hash from a 32-byte array.
    pub fn new(bytes: [u8; 32]) -> (r: Self)
        ensures
            r.0 == bytes,
    {
        Hash32(bytes)
    }

    /// The underlying 32-byte array.
    pub fn as_bytes(&self) -> (r: &[u8; 32])
        ensures
            *r == self.0,
    {
        &self.0
    }

    /// This hash as lowercase hexadecimal text of 64 digits.
    pub fn to_hex(&self) -> (r: String)
        ensures
            r@ == hex_of(self@),
    {
        let mut out = String::new();
        let mut i: usize = 0;
        while i < 32
            invariant
                i <= 32,
                out@ == hex_of(self@.take(i as int)),
            decreases 32 - i,
        {
            let byte = self.0[i];
            push_hex_digit(&mut out, byte / 16);
            push_hex_digit(&mut out, byte % 16);
            proof {
                assert(self@.take(i as int + 1).drop_last() =~= self@.take(i as int));
            }
            i += 1;
        }
        proof {
            assert(self@.take(32) =~= self@);
        }
        out
    }

    /// Parse a hash from 64 hexadecimal digits (either case).
    ///
    /// Fails with `InvalidLength` when the text is not 64 bytes long, and
    /// otherwise with `InvalidCharacter` at the first byte that is not a hex
    /// digit.
    pub fn from_hex(s: &str) -> (r: Result<Self, HexError>)
        ensures
            match spec_from_hex(s.spec_bytes()) {
                Ok(b) => r is Ok && r->Ok_0@ == b,
                Err(e) => r == Err::<Self, HexError>(e),
            },
    {
        let input = s.as_bytes();
        if input.len() != 64 {
            return Err(HexError::InvalidLength(input.len()));
        }
        let mut bytes = [0u8; 32];
        let mut i: usize = 0;
        while i < 32
            invariant
                i <= 32,
                input@ == s.spec_bytes(),
                input@.len() == 64,
                all_hex(input@, 2 * i as int),
                forall|j: int| 0 <= j < i ==> bytes@[j] == decoded(input@)[j],
            decreases 32 - i,
        {
            let hi = match decode_hex_nibble(input[2 * i], 2 * i) {
                Ok(v) => v,
                Err(e) => {
                    proof {
                        assert(nibble_of(input@[2 * i as int]) is None);
                        lemma_first_invalid(input@, 2 * i as int);
                    }
                    return Err(e);
                },
            };
            let lo = match decode_hex_nibble(input[2 * i + 1], 2 * i + 1) {
                Ok(v) => v,
                Err(e) => {
                    proof {
                        assert(all_hex(input@, 2 * i as int + 1));
                        lemma_first_invalid(input@, 2 * i as int + 1);
                    }
                    return Err(e);
                },
            };
            bytes[i] = hi * 16 + lo;
            proof {
                assert(all_hex(input@, 2 * i as int + 2));
            }
            i += 1;
        }
        proof {
            assert(!(exists|k: int| 0 <= k < 64 && nibble_of(input@[k]) is None)) by {
                assert(all_hex(input@, 64));
            }
            assert(bytes@ =~= decoded(input@));
        }
        Ok(Hash32(bytes))
    }
}

/// The first invalid digit is where the parse stops.
proof fn lemma_first_invalid(bytes: Seq<u8>, k: int)
    requires
        bytes.len() == 64,
        0 <= k < 64,
        nibble_of(bytes[k]) is None,
        all_hex(bytes, k),
    ensures
        spec_from_hex(bytes) == Err::<Seq<u8>, HexError>(
            HexError::InvalidCharacter { char: bytes[k] as char, index: k as usize },
        ),
{
    let c = choose|c: int| 0 <= c < 64 && nibble_of(bytes[c]) is None && all_hex(bytes, c);
    if c < k {
        assert(nibble_of(bytes[c]) is Some);
    }
    if k < c {
        assert(nibble_of(bytes[k]) is Some);
    }
}

/// Append the hex digit of a nibble.
pub fn push_hex_digit(out: &mut String, n: u8)
    requires
        n < 16,
    ensures
        final(out)@ == old(out)@.push(hex_digit(n)),
{
    let c: char = if n < 10 {
        (48 + n) as char
    } else {
        (87 + n) as char
    };
    crate::ledger_core::text::push_char(out, c);
}

/// Decode a single ASCII hex digit.
fn decode_hex_nibble(byte: u8, index: usize) -> (r: Result<u8, HexError>)
    ensures
        match nibble_of(byte) {
            Some(v) => r == Ok::<u8, HexError>(v),
            None => r == Err::<u8, HexError>(HexError::InvalidCharacter { char: byte as char, index }),
        },
{
    if 48 <= byte && byte <= 57 {
        Ok(byte - 48)
    } else if 97 <= byte && byte <= 102 {
        Ok(byte - 87)
    } else if 65 <= byte && byte <= 70 {
        Ok(byte - 55)
    } else {
        Err(HexError::InvalidCharacter { char: byte as char, index })
    }
}

/// Append bytes to a buffer.
fn push_all(buf: &mut Vec<u8>, data: &[u8])
    ensures
        final(buf)@ == old(buf)@ + data@,
{
    let mut i: usize = 0;
    while i < data.len()
        invariant
            i <= data@.len(),
            buf@ == old(buf)@ + data@.take(i as int),
        decreases data@.len() - i,
    {
        buf.push(data[i]);
        proof {
            assert(data@.take(i as int + 1) =~= data@.take(i as int).push(data@[i as int]));
        }
        i += 1;
    }
    proof {
        assert(data@.take(i as int) =~= data@);
    }
}

/// Hash `prefix || data` into a 32-byte hash.
fn hash_prefixed(prefix: u8, data: &[u8]) -> (r: Hash32)
    ensures
        r@ == spec_sha256(seq![prefix] + data@),
{
    let mut buf: Vec<u8> = Vec::new();
    buf.push(prefix);
    push_all(&mut buf, data);
    proof {
        assert(buf@ =~= seq![prefix] + data@);
    }
    Hash32(sha256(buf.as_slice()))
}

/// Hash `prefix || left || right` into a 32-byte hash.
fn hash_pair(prefix: u8, left: &Hash32, right: &Hash32) -> (r: Hash32)
    ensures
        r@ == spec_sha256(seq![prefix] + left@ + right@),
{
    let mut buf: Vec<u8> = Vec::new();
    buf.push(prefix);
    push_all(&mut buf, left.0.as_slice());
    push_all(&mut buf, right.0.as_slice());
    proof {
        assert(buf@ =~= seq![prefix] + left@ + right@);
    }
    Hash32(sha256(buf.as_slice()))
}

/// Compute a leaf hash with domain separation prefix `0x00`: `Sha256(0x00 || data)`.
pub fn hash_leaf(data: &[u8]) -> (r: Hash32)
    ensures
        r@ == leaf_hash_of(data@),
{
    hash_prefixed(LEAF_PREFIX, data)
}

/// Combine two internal nodes into a parent hash: `Sha256(0x01 || left || right)`.
pub fn combine_nodes(left: &Hash32, right: &Hash32) -> (r: Hash32)
    ensures
        r@ == node_hash_of(left@, right@),
{
    hash_pair(NODE_PREFIX, left, right)
}

/// Combine two mountain peaks: `Sha256(0x02 || left_peak || right_peak)`.
pub fn combine_peaks(left_peak: &Hash32, right_peak: &Hash32) -> (r: Hash32)
    ensures
        r@ == peak_hash_of(left_peak@, right_peak@),
{
    hash_pair(PEAK_PREFIX, left_peak, right_peak)
}

/// Bag all peaks into a single root by folding right to left; the zero hash
/// for no peaks, the peak itself for one.
pub fn bag_peaks(peaks: &[Hash32]) -> (r: Hash32)
    ensures
        r@ == bag_of(peaks@.map_values(|h: Hash32| h@)),
{
    let ghost hs = peaks@.map_values(|h: Hash32| h@);
    let len = peaks.len();
    if len == 0 {
        return Hash32::zero();
    }
    if len == 1 {
        return peaks[0];
    }
    let mut acc = peaks[len - 1];
    let mut i = len - 1;
    proof {
        assert(hs.skip(i as int) =~= seq![hs[i as int]]);
    }
    while i > 0
        invariant
            0 <= i < len,
            len == peaks@.len(),
            hs == peaks@.map_values(|h: Hash32| h@),
            acc@ == bag_of(hs.skip(i as int)),
        decreases i,
    {
        i -= 1;
        acc = combine_peaks(&peaks[i], &acc);
        proof {
            assert(hs.skip(i as int).drop_first() =~= hs.skip(i as int + 1));
        }
    }
    proof {
        assert(hs.skip(0) =~= hs);
    }
    acc
}

impl From<[u8; 32]> for Hash32 {
    fn from(bytes: [u8; 32]) -> (r: Self) {
        Hash32(bytes)
    }
}

impl vstd::std_specs::convert::FromSpecImpl<[u8; 32]> for Hash32 {
    open spec fn obeys_from_spec() -> bool {
        true
    }

    open spec fn from_spec(bytes: [u8; 32]) -> Hash32 {
        Hash32(bytes)
    }
}


/// Hex text has two digits per byte: the high nibble's, then the low one's.
pub proof fn lemma_hex_of_index(bytes: Seq<u8>)
    ensures
        hex_of(bytes).len() == 2 * bytes.len(),
        forall|i: int|
            0 <= i < bytes.len() ==> hex_of(bytes)[2 * i] == hex_digit(#[trigger] bytes[i] / 16) && hex_of(bytes)[2
                * i + 1] == hex_digit(bytes[i] % 16),
    decreases bytes.len(),
{
    if bytes.len() > 0 {
        lemma_hex_of_index(bytes.drop_last());
        assert forall|i: int| 0 <= i < bytes.len() implies hex_of(bytes)[2 * i] == hex_digit(
            #[trigger] bytes[i] / 16,
        ) && hex_of(bytes)[2 * i + 1] == hex_digit(bytes[i] % 16) by {
            if i < bytes.len() - 1 {
                assert(bytes.drop_last()[i] == bytes[i]);
            }
        }
    }
}

/// Parsing the hex text of a hash gives the hash back.
pub proof fn law_hex_roundtrip(h: Hash32, s: &str)
    requires
        s@ == hex_of(h@),
    ensures
        spec_from_hex(s.spec_bytes()) == Ok::<Seq<u8>, HexError>(h@),
{
    broadcast use vstd::string::is_ascii_spec_bytes;

    lemma_hex_of_index(h@);
    assert forall|i: int| 0 <= i < s@.len() implies '\0' <= #[trigger] s@[i] <= '\u{7f}' by {
        let j = i / 2;
        assert(0 <= j < 32);
        if i % 2 == 0 {
            assert(i == 2 * j);
            assert(s@[i] == hex_digit(h@[j] / 16));
        } else {
            assert(i == 2 * j + 1);
            assert(s@[i] == hex_digit(h@[j] % 16));
        }
    }
    assert(vstd::string::is_ascii(s));
    let b = s.spec_bytes();
    assert(b.len() == 64);
    assert forall|i: int| 0 <= i < 32 implies nibble_of(b[2 * i]) == Some((#[trigger] h@[i]) / 16) && nibble_of(
        b[2 * i + 1],
    ) == Some(h@[i] % 16) by {
        assert(b[2 * i] == s@[2 * i] as u8);
        assert(b[2 * i + 1] == s@[2 * i + 1] as u8);
    }
    assert(!(exists|i: int| 0 <= i < 64 && nibble_of(b[i]) is None)) by {
        if exists|i: int| 0 <= i < 64 && nibble_of(b[i]) is None {
            let i = choose|i: int| 0 <= i < 64 && nibble_of(b[i]) is None;
            let j = i / 2;
            assert(nibble_of(b[2 * j]) == Some(h@[j] / 16));
            assert(nibble_of(b[2 * j + 1]) == Some(h@[j] % 16));
            if i % 2 == 0 {
                assert(i == 2 * j);
            } else {
                assert(i == 2 * j + 1);
            }
        }
    }
    assert(decoded(b) =~= h@) by {
        assert forall|i: int| 0 <= i < 32 implies #[trigger] decoded(b)[i] == h@[i] by {
            assert(nibble_of(b[2 * i]) == Some(h@[i] / 16));
            assert(nibble_of(b[2 * i + 1]) == Some(h@[i] % 16));
        }
    }
}

} // verus!
