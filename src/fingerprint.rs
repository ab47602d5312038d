//! The certificate fingerprint shown to the user: the SHA-256 digest of the
//! certificate's DER encoding, as lower-case hex bytes joined by colons.
use vstd::prelude::*;

use sha2::Digest;

verus! {

/// The SHA-256 digest of a byte string.
pub uninterp spec fn sha256_of(data: Seq<u8>) -> Seq<u8>;

/// Relies on `sha2::Sha256::digest`: the SHA-256 digest of the input, which
/// is 32 bytes long.
#[verifier::external_body]
fn sha256_digest(data: &[u8]) -> (r: Vec<u8>)
    ensures
        r@ == sha256_of(data@),
        r@.len() == 32,
{
    sha2::Sha256::digest(data).to_vec()
}

/// Relies on `String::push`: the character is appended at the end.
#[verifier::external_body]
fn push_char(s: &mut String, c: char)
    ensures
        final(s)@ == old(s)@.push(c),
{
    s.push(c)
}

/// Lower-case hex digit of a value below 16.
pub open spec fn hex_digit(n: int) -> char {
    if n < 10 {
        (48 + n) as char
    } else {
        (87 + n) as char
    }
}

/// Two lower-case hex digits of a byte.
pub open spec fn byte_hex(b: u8) -> Seq<char> {
    seq![hex_digit(b as int / 16), hex_digit(b as int % 16)]
}

/// The bytes as two-digit lower-case hex, separated by colons.
pub open spec fn colon_hex(bytes: Seq<u8>) -> Seq<char>
    decreases bytes.len(),
{
    if bytes.len() == 0 {
        Seq::empty()
    } else if bytes.len() == 1 {
        byte_hex(bytes[0])
    } else {
        colon_hex(bytes.drop_last()) + seq![':'] + byte_hex(bytes.last())
    }
}

/// Three characters per byte, less the one separator that is missing.
pub proof fn lemma_colon_hex_len(bytes: Seq<u8>)
    ensures
        bytes.len() > 0 ==> colon_hex(bytes).len() == 3 * bytes.len() - 1,
    decreases bytes.len(),
{
    if bytes.len() > 1 {
        lemma_colon_hex_len(bytes.drop_last());
    }
}

/// Lower-case hex digit of `n`.
fn hex_char(n: u8) -> (r: char)
    requires
        n < 16,
    ensures
        r == hex_digit(n as int),
{
    match n {
        0 => '0',
        1 => '1',
        2 => '2',
        3 => '3',
        4 => '4',
        5 => '5',
        6 => '6',
        7 => '7',
        8 => '8',
        9 => '9',
        10 => 'a',
        11 => 'b',
        12 => 'c',
        13 => 'd',
        14 => 'e',
        _ => 'f',
    }
}

/// Renders a digest as colon-separated lower-case hex, e.g. `0a:ff:10`.
pub fn fingerprint_of_digest(digest: &[u8]) -> (r: String)
    ensures
        r@ == colon_hex(digest@),
{
    let mut out = String::new();
    let mut i: usize = 0;
    while i < digest.len()
        invariant
            i <= digest@.len(),
            out@ == colon_hex(digest@.subrange(0, i as int)),
        decreases digest@.len() - i,
    {
        let b = digest[i];
        proof {
            assert(digest@.subrange(0, i + 1).drop_last() =~= digest@.subrange(0, i as int));
        }
        if i > 0 {
            push_char(&mut out, ':');
        }
        push_char(&mut out, hex_char(b / 16));
        push_char(&mut out, hex_char(b % 16));
        proof {
            if i == 0 {
                assert(out@ =~= byte_hex(digest@[0]));
            } else {
                assert(out@ =~= colon_hex(digest@.subrange(0, i as int)) + seq![':'] + byte_hex(b));
            }
        }
        i = i + 1;
    }
    proof {
        assert(digest@.subrange(0, digest@.len() as int) =~= digest@);
    }
    out
}

/// The fingerprint of a certificate given by its DER encoding: its SHA-256
/// digest as 32 colon-separated hex bytes.
pub fn get_fingerprint(der: &[u8]) -> (r: String)
    ensures
        r@ == colon_hex(sha256_of(der@)),
        r@.len() == 95,
{
    let digest = sha256_digest(der);
    proof {
        lemma_colon_hex_len(digest@);
    }
    fingerprint_of_digest(digest.as_slice())
}

} // verus!
