//! Wire encoding of the settlement contract's calls.
//!
//! The operator talks to the contract through its binary call format: a
//! four-byte selector derived from the function signature's digest, followed
//! by the arguments encoded in 32-byte words, with dynamic byte strings
//! length-prefixed, zero-padded to a word boundary, and referenced by offset
//! from the start of the argument area.

use vstd::arithmetic::div_mod::lemma_div_denominator;
use vstd::arithmetic::div_mod::lemma_fundamental_div_mod;
use vstd::arithmetic::power2::lemma_pow2_adds;
use vstd::arithmetic::power2::lemma_pow2_pos;
use vstd::arithmetic::power2::lemma_pow2_strictly_increases;
use vstd::arithmetic::power2::lemma2_to64;
use vstd::arithmetic::power2::lemma2_to64_rest;
use vstd::arithmetic::power2::pow2;
use vstd::bits::lemma_u64_low_bits_mask_is_mod;
use vstd::bits::lemma_u64_shr_is_div;
use vstd::bits::lemma_low_bits_mask_values;
use vstd::prelude::*;

use crate::commitment::keccak_of;

verus! {

/// The byte at position `i` of the 32-byte big-endian word holding `x`.
pub open spec fn spec_word_byte(x: u64, i: int) -> u8 {
    if i < 24 {
        0u8
    } else {
        (((x as nat) / pow2(((31 - i) * 8) as nat)) % 256) as u8
    }
}

/// The 32-byte big-endian word holding `x`: 24 zero bytes, then the value's
/// eight bytes, most significant first.
pub open spec fn word32(x: u64) -> Seq<u8> {
    Seq::new(32, |i: int| spec_word_byte(x, i))
}

/// The big-endian value of a byte string: each byte a base-256 digit, most
/// significant first.
pub open spec fn be_value(s: Seq<u8>) -> int
    decreases s.len(),
{
    if s.len() == 0 {
        0
    } else {
        be_value(s.drop_last()) * 256 + s.last()
    }
}

/// Encodes `x` as a 32-byte big-endian word; the word's big-endian value is
/// `x` itself.
pub fn encode_u64_word(x: u64) -> (r: Vec<u8>)
    ensures
        r@ == word32(x),
        be_value(r@) == x,
{
    let mut r: Vec<u8> = Vec::new();
    let mut i: usize = 0;
    while i < 24
        invariant
            0 <= i <= 24,
            r@.len() == i,
            forall|j: int| 0 <= j < i ==> r@[j] == spec_word_byte(x, j),
            be_value(r@) == 0,
        decreases 24 - i,
    {
        proof {
            assert(r@.push(0u8).drop_last() =~= r@);
        }
        r.push(0u8);
        i = i + 1;
    }
    proof {
        lemma2_to64_rest();
        let p = pow2(64) as int;
        assert((x as int) / p == 0) by (nonlinear_arith)
            requires
                0 <= (x as int) && (x as int) < p,
        ;
    }
    while i < 32
        invariant
            24 <= i <= 32,
            r@.len() == i,
            forall|j: int| 0 <= j < i ==> r@[j] == spec_word_byte(x, j),
            be_value(r@) == (x as int) / (pow2(((32 - i) * 8) as nat) as int),
        decreases 32 - i,
    {
        let shift: u64 = ((31 - i) * 8) as u64;
        proof {
            lemma_u64_shr_is_div(x, shift);
            lemma_u64_low_bits_mask_is_mod(x >> shift, 8);
            lemma_low_bits_mask_values();
            lemma2_to64();
        }
        let b: u8 = ((x >> shift) & 0xff) as u8;
        proof {
            let d = pow2(((31 - i) * 8) as nat) as int;
            let d8 = pow2(((32 - i) * 8) as nat) as int;
            lemma_pow2_pos(((31 - i) * 8) as nat);
            lemma_pow2_adds(((31 - i) * 8) as nat, 8);
            assert(d8 == d * 256);
            assert(b as int == ((x as int) / d) % 256);
            assert(b == spec_word_byte(x, i as int));
            assert(r@.push(b).drop_last() =~= r@);
            // One more digit: the running value gains the next byte of x.
            lemma_div_denominator(x as int, d, 256);
            lemma_fundamental_div_mod((x as int) / d, 256);
            assert(be_value(r@.push(b)) == be_value(r@) * 256 + b);
            assert(be_value(r@.push(b)) == (x as int) / d);
        }
        r.push(b);
        i = i + 1;
    }
    proof {
        assert(r@ =~= word32(x));
        lemma2_to64();
        assert(pow2(0) == 1);
        assert(be_value(r@) == (x as int) / (pow2(((32 - 32) * 8) as nat) as int));
        assert((x as int) / 1 == x as int);
    }
    r
}

/// A word that does not decode to the expected shape.
#[derive(Debug)]
pub enum AbiError {
    /// The word is not exactly 32 bytes long.
    WrongLength { got: usize },
    /// The value does not fit 64 bits.
    ValueTooLarge,
}

/// Decodes a 32-byte big-endian word into a 64-bit value.
///
/// Accepts exactly the words whose 24 leading bytes are zero, i.e. whose
/// value fits 64 bits; the result is the word's big-endian value.
pub fn decode_u64_word(w: &Vec<u8>) -> (r: Result<u64, AbiError>)
    ensures
        r is Ok <==> w@.len() == 32 && (forall|i: int| 0 <= i < 24 ==> w@[i] == 0),
        r matches Ok(v) ==> v == be_value(w@),
        r matches Err(e) ==> match e {
            AbiError::WrongLength { got } => got == w@.len() && w@.len() != 32,
            AbiError::ValueTooLarge => w@.len() == 32 && !(forall|i: int|
                0 <= i < 24 ==> w@[i] == 0),
        },
{
    if w.len() != 32 {
        return Err(AbiError::WrongLength { got: w.len() });
    }
    let mut i: usize = 0;
    while i < 24
        invariant
            w@.len() == 32,
            0 <= i <= 24,
            forall|j: int| 0 <= j < i ==> w@[j] == 0,
        decreases 24 - i,
    {
        if w[i] != 0 {
            return Err(AbiError::ValueTooLarge);
        }
        i = i + 1;
    }
    proof {
        lemma_zero_prefix_value(w@, 24);
        lemma2_to64();
    }
    let mut v: u64 = 0;
    while i < 32
        invariant
            w@.len() == 32,
            24 <= i <= 32,
            v == be_value(w@.subrange(0, i as int)),
            be_value(w@.subrange(0, i as int)) < pow2((8 * (i - 24)) as nat),
        decreases 32 - i,
    {
        proof {
            let prefix = w@.subrange(0, i as int);
            assert(w@.subrange(0, i + 1).drop_last() =~= prefix);
            lemma_pow2_adds((8 * (i - 24)) as nat, 8);
            lemma2_to64();
            assert(pow2((8 * (i + 1 - 24)) as nat) <= pow2(64)) by {
                if 8 * (i + 1 - 24) < 64 {
                    lemma_pow2_strictly_increases((8 * (i + 1 - 24)) as nat, 64);
                }
            }
            lemma2_to64_rest();
        }
        v = v * 256 + (w[i] as u64);
        i = i + 1;
    }
    proof {
        assert(w@.subrange(0, 32) =~= w@);
    }
    Ok(v)
}

/// A byte string whose first `k` bytes are zero has the value of its
/// remainder; in particular a zero prefix alone has value zero.
proof fn lemma_zero_prefix_value(s: Seq<u8>, k: int)
    requires
        0 <= k <= s.len(),
        forall|i: int| 0 <= i < k ==> s[i] == 0,
    ensures
        be_value(s.subrange(0, k)) == 0,
    decreases k,
{
    if k > 0 {
        assert(s.subrange(0, k).drop_last() =~= s.subrange(0, k - 1));
        lemma_zero_prefix_value(s, k - 1);
    }
}

/// The bytes of an ascii character sequence, one byte per character.
pub open spec fn ascii_bytes(s: Seq<char>) -> Seq<u8> {
    Seq::new(s.len(), |i: int| s[i] as u8)
}

/// The four-byte selector of a function signature: the leading bytes of the
/// signature's Keccak-256 digest.
pub open spec fn spec_selector(signature_bytes: Seq<u8>) -> Seq<u8> {
    keccak_of(signature_bytes).subrange(0, 4)
}

/// Computes the selector of an ascii function signature.
fn selector(signature: &str) -> (r: Vec<u8>)
    requires
        vstd::string::is_ascii(signature),
    ensures
        r@ == spec_selector(ascii_bytes(signature@)),
{
    let bytes = vstd::slice::slice_to_vec(signature.as_bytes());
    proof {
        vstd::string::is_ascii_spec_bytes(signature);
        assert(bytes@ =~= ascii_bytes(signature@));
    }
    let mut digest = crate::commitment::keccak256_digest(&bytes);
    digest.truncate(4);
    digest
}

/// Appends one byte vector to another.
pub fn append_bytes(out: &mut Vec<u8>, data: &Vec<u8>)
    ensures
        final(out)@ == old(out)@ + data@,
{
    let n = data.len();
    let mut i: usize = 0;
    while i < n
        invariant
            n == data@.len(),
            0 <= i <= n,
            out@ == old(out)@ + data@.subrange(0, i as int),
        decreases n - i,
    {
        out.push(data[i]);
        proof {
            assert(out@ =~= old(out)@ + data@.subrange(0, i + 1 as int));
        }
        i = i + 1;
    }
    proof {
        assert(out@ =~= old(out)@ + data@);
    }
}

/// Calldata reading the contract's current head slot: `head()`.
pub fn encode_head_call() -> (r: Vec<u8>)
    ensures
        r@ == spec_selector(ascii_bytes("head()"@)),
{
    proof {
        reveal_strlit("head()");
    }
    selector("head()")
}

/// Calldata reading the committee period of a slot:
/// `getSyncCommitteePeriod(uint256)`.
pub fn encode_period_call(slot: u64) -> (r: Vec<u8>)
    ensures
        r@ == spec_selector(ascii_bytes("getSyncCommitteePeriod(uint256)"@)) + word32(slot),
{
    proof {
        reveal_strlit("getSyncCommitteePeriod(uint256)");
    }
    let mut data = selector("getSyncCommitteePeriod(uint256)");
    let word = encode_u64_word(slot);
    append_bytes(&mut data, &word);
    data
}

/// Calldata reading the committee hash stored for a period:
/// `syncCommittees(uint256)`.
pub fn encode_sync_committees_call(period: u64) -> (r: Vec<u8>)
    ensures
        r@ == spec_selector(ascii_bytes("syncCommittees(uint256)"@)) + word32(period),
{
    proof {
        reveal_strlit("syncCommittees(uint256)");
    }
    let mut data = selector("syncCommittees(uint256)");
    let word = encode_u64_word(period);
    append_bytes(&mut data, &word);
    data
}

/// Zero padding that extends a byte string of length `n` to a whole number
/// of 32-byte words.
pub open spec fn pad32_len(n: int) -> int {
    (32 - n % 32) % 32
}

/// A dynamic byte-string argument as it stands in calldata: its length as a
/// word, the bytes themselves, and zero padding to a word boundary.
pub open spec fn abi_bytes(b: Seq<u8>) -> Seq<u8> {
    word32(b.len() as u64) + b + Seq::new(pad32_len(b.len() as int) as nat, |i: int| 0u8)
}

/// Appends a dynamic byte-string argument to calldata under construction.
fn append_abi_bytes(out: &mut Vec<u8>, data: &Vec<u8>)
    requires
        data@.len() <= 0xffff_ffff,
    ensures
        final(out)@ == old(out)@ + abi_bytes(data@),
{
    let len_word = encode_u64_word(data.len() as u64);
    append_bytes(out, &len_word);
    append_bytes(out, data);
    let pad: usize = (32 - data.len() % 32) % 32;
    let mut i: usize = 0;
    let ghost mid = out@;
    while i < pad
        invariant
            0 <= i <= pad,
            out@ == mid + Seq::new(i as nat, |j: int| 0u8),
        decreases pad - i,
    {
        out.push(0u8);
        proof {
            assert(out@ =~= mid + Seq::new((i + 1) as nat, |j: int| 0u8));
        }
        i = i + 1;
    }
    proof {
        assert(out@ =~= old(out)@ + abi_bytes(data@));
    }
}

/// The full calldata of an update submission:
/// `update(bytes seal, bytes journalData, uint256 head)`. The two byte
/// strings stand in the argument area behind their word offsets, each
/// length-prefixed and padded; the head slot stands as the third word.
pub open spec fn update_call_data(seal: Seq<u8>, journal: Seq<u8>, head: u64) -> Seq<u8> {
    spec_selector(ascii_bytes("update(bytes,bytes,uint256)"@)) + word32(96) + word32(
        (128 + seal.len() + pad32_len(seal.len() as int)) as u64,
    ) + word32(head) + abi_bytes(seal) + abi_bytes(journal)
}

/// Encodes the update submission's calldata from the receipt's parts and
/// the head slot the proof updates from.
pub fn encode_update_call(seal: &Vec<u8>, journal: &Vec<u8>, head: u64) -> (r: Vec<u8>)
    requires
        seal@.len() <= 0xffff_ffff,
        journal@.len() <= 0xffff_ffff,
    ensures
        r@ == update_call_data(seal@, journal@, head),
{
    proof {
        reveal_strlit("update(bytes,bytes,uint256)");
    }
    let mut data = selector("update(bytes,bytes,uint256)");
    let seal_offset = encode_u64_word(96);
    append_bytes(&mut data, &seal_offset);
    let pad: usize = (32 - seal.len() % 32) % 32;
    let journal_offset = encode_u64_word(128u64 + seal.len() as u64 + pad as u64);
    append_bytes(&mut data, &journal_offset);
    let head_word = encode_u64_word(head);
    append_bytes(&mut data, &head_word);
    append_abi_bytes(&mut data, seal);
    append_abi_bytes(&mut data, journal);
    proof {
        assert(data@ =~= update_call_data(seal@, journal@, head));
    }
    data
}

} // verus!
