//! Content-digest verification. The 160-bit digest itself comes from an
//! outside implementation and is only named here; everything said about a
//! file's integrity is phrased as "the lowercase hex rendering of the
//! digest of its bytes equals the expected string".

use vstd::prelude::*;

verus! {

/// The hexadecimal digit characters, lowercase.
pub open spec fn hex_digit(d: nat) -> char
    recommends
        d < 16,
{
    if d < 10 {
        crate::strutil::dec_digit(d)
    } else if d == 10 {
        'a'
    } else if d == 11 {
        'b'
    } else if d == 12 {
        'c'
    } else if d == 13 {
        'd'
    } else if d == 14 {
        'e'
    } else {
        'f'
    }
}

/// Lowercase hex rendering of a byte string, two digits per byte.
pub open spec fn hex_of(bytes: Seq<u8>) -> Seq<char>
    decreases bytes.len(),
{
    if bytes.len() == 0 {
        Seq::<char>::empty()
    } else {
        hex_of(bytes.drop_last()).push(hex_digit((bytes.last() / 16) as nat)).push(
            hex_digit((bytes.last() % 16) as nat),
        )
    }
}

/// The 20-byte content digest of a byte string, named after the outside
/// implementation that computes it.
pub uninterp spec fn sha1_of(bytes: Seq<u8>) -> Seq<u8>;

/// Relies on `sha1::Sha1` through the one-shot `Digest::digest`: the
/// digest is 20 bytes and depends on the input bytes alone.
#[verifier::external_body]
fn sha1_digest(data: &[u8]) -> (r: Vec<u8>)
    ensures
        r@ == sha1_of(data@),
        r@.len() == 20,
{
    <sha1::Sha1 as sha1::Digest>::digest(data).to_vec()
}

fn hex_digit_char(d: u8) -> (c: char)
    requires
        d < 16,
    ensures
        c == hex_digit(d as nat),
{
    if d == 0 {
        '0'
    } else if d == 1 {
        '1'
    } else if d == 2 {
        '2'
    } else if d == 3 {
        '3'
    } else if d == 4 {
        '4'
    } else if d == 5 {
        '5'
    } else if d == 6 {
        '6'
    } else if d == 7 {
        '7'
    } else if d == 8 {
        '8'
    } else if d == 9 {
        '9'
    } else if d == 10 {
        'a'
    } else if d == 11 {
        'b'
    } else if d == 12 {
        'c'
    } else if d == 13 {
        'd'
    } else if d == 14 {
        'e'
    } else {
        'f'
    }
}

/// Render a byte string in lowercase hex.
pub fn hex_encode(bytes: &[u8]) -> (r: String)
    ensures
        r@ == hex_of(bytes@),
{
    let n = bytes.len();
    let mut out = String::new();
    let mut i: usize = 0;
    proof {
        assert(bytes@.subrange(0, 0) =~= Seq::<u8>::empty());
    }
    while i < n
        invariant
            i <= n,
            n == bytes@.len(),
            out@ == hex_of(bytes@.subrange(0, i as int)),
        decreases n - i,
    {
        let b = bytes[i];
        push_pair(&mut out, b);
        proof {
            let pre = bytes@.subrange(0, i as int);
            let post = bytes@.subrange(0, i as int + 1);
            assert(post.drop_last() =~= pre);
            assert(post.last() == bytes@[i as int]);
        }
        i += 1;
    }
    proof {
        assert(bytes@.subrange(0, n as int) =~= bytes@);
    }
    out
}

fn push_pair(out: &mut String, b: u8)
    ensures
        final(out)@ == old(out)@.push(hex_digit((b / 16) as nat)).push(
            hex_digit((b % 16) as nat),
        ),
{
    crate::strutil::push_char(out, hex_digit_char(b / 16));
    crate::strutil::push_char(out, hex_digit_char(b % 16));
}

/// Does a digest, rendered in lowercase hex, equal the expected string?
/// Takes the digest itself, so a caller can check any digest source.
pub fn hex_digest_matches(digest: &[u8], expected: &str) -> (r: bool)
    ensures
        r == (hex_of(digest@) == expected@),
{
    let h = hex_encode(digest);
    crate::paths::str_eq(h.as_str(), expected)
}

/// Lowercase hex rendering of the content digest of `data`.
pub fn sha1_hex(data: &[u8]) -> (r: String)
    ensures
        r@ == hex_of(sha1_of(data@)),
{
    let d = sha1_digest(data);
    hex_encode(d.as_slice())
}

/// The verifier's core judgment: does the content digest of `data` match
/// the expected lowercase hex digest?
pub fn sha1_matches(data: &[u8], expected: &str) -> (r: bool)
    ensures
        r == (hex_of(sha1_of(data@)) == expected@),
{
    let d = sha1_digest(data);
    hex_digest_matches(d.as_slice(), expected)
}

} // verus!
