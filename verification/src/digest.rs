//! Content digests.
//!
//! A partition's digest is the SHA-256 hash of its raw bytes, hex-encoded
//! in lower case.  The hash itself is computed by the `sha2` crate behind a
//! trusted wrapper; the hex encoding is verified here.

use sha2::Digest;
use vstd::prelude::*;

verus! {

/// The SHA-256 digest of a byte sequence.  Named, not written out: its
/// value is pinned only by running the hash.
pub uninterp spec fn sha256_of(b: Seq<u8>) -> Seq<u8>;

/// Relies on `sha2::Sha256::digest`: the digest depends on the input bytes
/// alone and is 32 bytes long.
#[verifier::external_body]
fn sha256(bytes: &[u8]) -> (r: Vec<u8>)
    ensures
        r@ == sha256_of(bytes@),
        r@.len() == 32,
{
    sha2::Sha256::digest(bytes).to_vec()
}

/// Relies on `String::push`: appends one character at the end.
#[verifier::external_body]
fn push_char(s: &mut String, c: char)
    ensures
        final(s)@ == old(s)@ + seq![c],
{
    s.push(c)
}

/// The lower-case hex character for a value below 16.
pub open spec fn hex_digit(n: u8) -> char
    recommends
        n < 16,
{
    if n < 10 {
        ((n + 48) as char)  // '0'..'9'

    } else {
        ((n + 87) as char)  // 'a'..'f'

    }
}

/// Lower-case hex encoding of a byte sequence, two digits per byte.
pub open spec fn hex_of(b: Seq<u8>) -> Seq<char>
    decreases b.len(),
{
    if b.len() == 0 {
        Seq::empty()
    } else {
        hex_of(b.drop_last()) + seq![hex_digit(b.last() / 16), hex_digit(b.last() % 16)]
    }
}

/// The digest string the library compares against a manifest's expected
/// checksum: lower-case hex of the SHA-256 hash of the bytes.
pub open spec fn checksum_of(b: Seq<u8>) -> Seq<char> {
    hex_of(sha256_of(b))
}

fn hex_digit_char(n: u8) -> (c: char)
    requires
        n < 16,
    ensures
        c == hex_digit(n),
{
    if n < 10 {
        (n + 48) as char
    } else {
        (n + 87) as char
    }
}

/// Lower-case hex encoding of a byte vector.
fn to_hex_lower(bytes: &Vec<u8>) -> (r: String)
    ensures
        r@ == hex_of(bytes@),
{
    let mut r = String::new();
    let n = bytes.len();
    let mut i: usize = 0;
    while i < n
        invariant
            n == bytes@.len(),
            i <= n,
            r@ == hex_of(bytes@.take(i as int)),
        decreases n - i,
    {
        let b = bytes[i];
        let hi = b / 16;
        let lo = b % 16;
        push_char(&mut r, hex_digit_char(hi));
        push_char(&mut r, hex_digit_char(lo));
        proof {
            let pre = bytes@.take(i as int);
            let cur = bytes@.take(i + 1 as int);
            assert(cur.drop_last() =~= pre);
            assert(cur.last() == bytes@[i as int]);
        }
        i = i + 1;
    }
    proof {
        assert(bytes@.take(n as int) =~= bytes@);
    }
    r
}

/// The content digest of a byte buffer: SHA-256, hex-encoded lower case.
/// The surrounding application reads a partition's (or a downloaded
/// image's) full contents and hands the bytes here.
pub fn checksum(bytes: &[u8]) -> (r: String)
    ensures
        r@ == checksum_of(bytes@),
{
    let digest = sha256(bytes);
    to_hex_lower(&digest)
}

/// Verifying twice without an intervening write yields identical digests:
/// the digest is a function of the bytes alone, so re-verification after a
/// flash applies the same algorithm as the initial verification.
pub proof fn lemma_checksum_deterministic(b1: Seq<u8>, b2: Seq<u8>)
    requires
        b1 == b2,
    ensures
        checksum_of(b1) == checksum_of(b2),
{
}

} // verus!
