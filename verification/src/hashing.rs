//! Content checksums for change detection.
//!
//! A media playlist's raw bytes are hashed, and the lowercase hex digest is
//! persisted in the download record; a later run compares digests to decide
//! between resuming and restarting.  The digest itself is the md5 crate's
//! work and is only named here; the hex encoding is the library's own.

use vstd::prelude::*;

verus! {

/// The MD5 digest of `bytes`: a function of the bytes alone.
pub uninterp spec fn md5_of(bytes: Seq<u8>) -> Seq<u8>;

/// Relies on md5::Md5 (the Digest trait): the digest depends on the input
/// bytes alone.
#[verifier::external_body]
fn md5_digest(bytes: &[u8]) -> (r: Vec<u8>)
    ensures
        r@ == md5_of(bytes@),
{
    let mut hasher = <md5::Md5 as md5::Digest>::new();
    md5::Digest::update(&mut hasher, bytes);
    md5::Digest::finalize(hasher).to_vec()
}

/// The ASCII code of `n < 16` as a lowercase hex digit.
pub open spec fn hex_digit_of(n: u8) -> u8 {
    if n < 10 {
        (0x30 + n) as u8
    } else {
        (0x57 + n) as u8
    }
}

/// The ASCII codes of the lowercase hex serialization of `bytes`, two digits
/// per byte, in order.
pub open spec fn hex_bytes_of(bytes: Seq<u8>) -> Seq<u8>
    decreases bytes.len(),
{
    if bytes.len() == 0 {
        Seq::empty()
    } else {
        hex_bytes_of(bytes.drop_last()) + seq![
            hex_digit_of(bytes.last() / 16),
            hex_digit_of(bytes.last() % 16),
        ]
    }
}

/// The lowercase hex serialization of `bytes` as characters.
pub open spec fn hex_chars_of(bytes: Seq<u8>) -> Seq<char> {
    hex_bytes_of(bytes).map_values(|b: u8| b as char)
}

/// The lowercase hex MD5 digest of `bytes`, the checksum the record persists.
pub open spec fn md5_hex_of(bytes: Seq<u8>) -> Seq<char> {
    hex_chars_of(md5_of(bytes))
}

/// Every hex digit is an ASCII code.
pub proof fn lemma_hex_bytes_ascii(bytes: Seq<u8>)
    ensures
        forall|i: int| 0 <= i < hex_bytes_of(bytes).len() ==> hex_bytes_of(bytes)[i] < 128,
    decreases bytes.len(),
{
    if bytes.len() > 0 {
        lemma_hex_bytes_ascii(bytes.drop_last());
        let pre = hex_bytes_of(bytes.drop_last());
        let whole = hex_bytes_of(bytes);
        assert forall|i: int| 0 <= i < whole.len() implies whole[i] < 128 by {
            if i < pre.len() {
                assert(whole[i] == pre[i]);
            } else {
                assert(hex_digit_of(bytes.last() / 16) < 128);
                assert(hex_digit_of(bytes.last() % 16) < 128);
            }
        }
    }
}

/// The ASCII codes of the lowercase hex serialization of `v`.
pub fn to_hex_bytes(v: &Vec<u8>) -> (r: Vec<u8>)
    ensures
        r@ == hex_bytes_of(v@),
{
    let mut r: Vec<u8> = Vec::new();
    let mut i: usize = 0;
    while i < v.len()
        invariant
            0 <= i <= v@.len(),
            r@ == hex_bytes_of(v@.subrange(0, i as int)),
        decreases v@.len() - i,
    {
        let b = v[i];
        r.push(if b / 16 < 10 { 0x30 + b / 16 } else { 0x57 + b / 16 });
        r.push(if b % 16 < 10 { 0x30 + b % 16 } else { 0x57 + b % 16 });
        proof {
            let pre = v@.subrange(0, i as int);
            let cur = v@.subrange(0, i + 1 as int);
            assert(cur.drop_last() =~= pre);
            assert(cur.last() == v@[i as int]);
            assert(r@ =~= hex_bytes_of(cur));
        }
        i += 1;
    }
    proof {
        assert(v@.subrange(0, v@.len() as int) =~= v@);
    }
    r
}

/// Relies on String::from_utf8: bytes below 128 are valid UTF-8 and decode
/// to the code points they spell.
#[verifier::external_body]
fn ascii_to_string(v: Vec<u8>) -> (r: String)
    requires
        forall|i: int| 0 <= i < v@.len() ==> v@[i] < 128,
    ensures
        r@.len() == v@.len(),
        forall|i: int| 0 <= i < r@.len() ==> r@[i] == v@[i] as char,
{
    String::from_utf8(v).unwrap()
}

/// The checksum of a media playlist's raw bytes: the lowercase hex MD5
/// digest, as the record persists it.
pub fn content_checksum(bytes: &[u8]) -> (r: String)
    ensures
        r@ == md5_hex_of(bytes@),
{
    let digest = md5_digest(bytes);
    proof {
        lemma_hex_bytes_ascii(digest@);
    }
    let hex = to_hex_bytes(&digest);
    let r = ascii_to_string(hex);
    proof {
        assert(r@ =~= md5_hex_of(bytes@));
    }
    r
}

} // verus!
