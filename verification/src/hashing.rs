//! URL hashing: lowercase-hex SHA-256, the key of every verdict row and
//! cache entry.

use vstd::prelude::*;

verus! {

/// The byte sequence that the SHA-256 function assigns to `input`.
/// It depends on `input` alone: the same bytes give the same digest in
/// every process and on every machine.
pub uninterp spec fn sha256_digest(input: Seq<u8>) -> Seq<u8>;

/// The lowercase hexadecimal digit for a value below sixteen.
pub open spec fn hex_digit(n: u8) -> char {
    if n < 10 {
        ((n + 48) as u8) as char
    } else {
        ((n + 87) as u8) as char
    }
}

/// The lowercase hexadecimal notation of a byte sequence: two digits per
/// byte, high nibble first.
pub open spec fn hex_of_bytes(bytes: Seq<u8>) -> Seq<char> {
    Seq::new(
        bytes.len() * 2,
        |i: int|
            if i % 2 == 0 {
                hex_digit((bytes[i / 2] / 16) as u8)
            } else {
                hex_digit((bytes[i / 2] % 16) as u8)
            },
    )
}

/// The lowercase-hex SHA-256 of a byte sequence; what `sha256` returns.
pub open spec fn sha256_hex(input: Seq<u8>) -> Seq<char> {
    hex_of_bytes(sha256_digest(input))
}

/// Relies on sha2's `Sha256`: the digest has 32 bytes and is a function of
/// the input bytes alone.
#[verifier::external_body]
fn sha256_raw(input: &[u8]) -> (r: Vec<u8>)
    ensures
        r@ == sha256_digest(input@),
        r@.len() == 32,
{
    <sha2::Sha256 as sha2::Digest>::digest(input).to_vec()
}

/// Formats a byte sequence in lowercase hexadecimal.
pub fn to_hex(bytes: &Vec<u8>) -> (r: String)
    ensures
        r@ == hex_of_bytes(bytes@),
{
    let mut out = String::new();
    let mut i: usize = 0;
    while i < bytes.len()
        invariant
            i <= bytes@.len(),
            out@ =~= hex_of_bytes(bytes@).subrange(0, 2 * i as int),
        decreases bytes@.len() - i,
    {
        let b = bytes[i];
        let hi: u8 = b / 16;
        let lo: u8 = b % 16;
        out.push(if hi < 10 { (hi + 48) as char } else { (hi + 87) as char });
        out.push(if lo < 10 { (lo + 48) as char } else { (lo + 87) as char });
        i = i + 1;
        proof {
            assert(out@ =~= hex_of_bytes(bytes@).subrange(0, 2 * i as int));
        }
    }
    proof {
        assert(out@ =~= hex_of_bytes(bytes@));
    }
    out
}

/// The lowercase-hex SHA-256 of `input`: the URL hash of the proxy.
pub fn sha256(input: &[u8]) -> (r: String)
    ensures
        r@ == sha256_hex(input@),
        r@.len() == 64,
{
    let digest = sha256_raw(input);
    to_hex(&digest)
}

/// The hash is stable: any two results of `sha256` on equal inputs are
/// themselves equal, in this process or another.
pub proof fn lemma_sha256_stable(a: Seq<u8>, b: Seq<u8>, r1: Seq<char>, r2: Seq<char>)
    requires
        a == b,
        r1 == sha256_hex(a),
        r2 == sha256_hex(b),
    ensures
        r1 == r2,
{
}

} // verus!
