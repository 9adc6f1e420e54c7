use vstd::prelude::*;
use vstd::utf8::encode_utf8;
use sha2::Digest;

verus! {

/// The SHA-256 digest (FIPS 180-4) of a byte string, as the `sha2` crate
/// computes it.
pub uninterp spec fn sha256_digest(data: Seq<u8>) -> Seq<u8>;

/// Calls `sha2::Sha256::digest` (the `Digest` trait of the `digest` crate,
/// which `sha2` re-exports). Claimed: the result is `sha256_digest` of the
/// input bytes, and it is 32 bytes long, the output size `U32` that `sha2`
/// gives `Sha256`.
#[verifier::external_body]
fn sha256(data: &[u8]) -> (digest: Vec<u8>)
    ensures
        digest@ == sha256_digest(data@),
        digest@.len() == 32,
{
    sha2::Sha256::digest(data).to_vec()
}

/// The lowercase hexadecimal digit of `n` (`n < 16`).
pub open spec fn hex_digit(n: u8) -> char {
    if n < 10 {
        ((48 + n) as u32) as char
    } else {
        ((87 + n) as u32) as char
    }
}

/// The lowercase hexadecimal digit of `n`.
pub(crate) fn lower_hex_digit(n: u8) -> (c: char)
    requires
        n < 16,
    ensures
        c == hex_digit(n),
{
    if n < 10 {
        (48u8 + n) as char
    } else {
        (87u8 + n) as char
    }
}

/// Lowercase hex encoding: each byte becomes two digits, high nibble first.
pub open spec fn hex_lower(bytes: Seq<u8>) -> Seq<char>
    decreases bytes.len(),
{
    if bytes.len() == 0 {
        Seq::empty()
    } else {
        hex_lower(bytes.drop_last()) + seq![
            hex_digit(bytes.last() / 16),
            hex_digit(bytes.last() % 16),
        ]
    }
}

/// A character of `0-9a-f`.
pub open spec fn is_lower_hex_char(c: char) -> bool {
    ('0' <= c && c <= '9') || ('a' <= c && c <= 'f')
}

/// A hex digest: 64 characters of `0-9a-f`.
pub open spec fn is_hex_digest(h: Seq<char>) -> bool {
    &&& h.len() == 64
    &&& forall|i: int| 0 <= i < h.len() ==> is_lower_hex_char(#[trigger] h[i])
}

/// Calls `hex::encode`. Claimed: the result is the lowercase hex encoding of
/// the input, two digits per byte, high nibble first, as the crate documents
/// and as its `BytesToHexChars` iterator over `HEX_CHARS_LOWER` produces.
#[verifier::external_body]
fn hex_encode(data: &[u8]) -> (text: String)
    ensures
        text@ == hex_lower(data@),
{
    hex::encode(data)
}

/// Hex encoding writes two digits of `0-9a-f` per byte.
pub proof fn lemma_hex_lower_shape(bytes: Seq<u8>)
    ensures
        hex_lower(bytes).len() == 2 * bytes.len(),
        forall|i: int| 0 <= i < hex_lower(bytes).len() ==> is_lower_hex_char(#[trigger] hex_lower(bytes)[i]),
    decreases bytes.len(),
{
    if bytes.len() > 0 {
        lemma_hex_lower_shape(bytes.drop_last());
    }
}

/// The proof-of-render hash of two texts: the lowercase hex SHA-256 digest of
/// the UTF-8 bytes of `first` followed by those of `second`.
pub open spec fn proof_hash(first: Seq<char>, second: Seq<char>) -> Seq<char> {
    hex_lower(sha256_digest(encode_utf8(first) + encode_utf8(second)))
}

/// Hashes the UTF-8 bytes of `first` followed by those of `second` with
/// SHA-256 and writes the digest in lowercase hex: 64 characters of `0-9a-f`.
pub fn proof_of_render_hash(first: &str, second: &str) -> (hash: String)
    ensures
        hash@ == proof_hash(first@, second@),
        is_hex_digest(hash@),
{
    let a = first.as_bytes();
    let b = second.as_bytes();
    let mut data: Vec<u8> = Vec::new();
    let mut i: usize = 0;
    while i < a.len()
        invariant
            i <= a@.len(),
            data@ == a@.take(i as int),
        decreases a@.len() - i,
    {
        data.push(a[i]);
        i = i + 1;
        assert(data@ == a@.take(i as int));
    }
    assert(a@.take(a@.len() as int) == a@);
    let mut j: usize = 0;
    while j < b.len()
        invariant
            j <= b@.len(),
            data@ == a@ + b@.take(j as int),
        decreases b@.len() - j,
    {
        data.push(b[j]);
        j = j + 1;
        assert(data@ == a@ + b@.take(j as int));
    }
    assert(b@.take(b@.len() as int) == b@);
    let digest = sha256(data.as_slice());
    let hash = hex_encode(digest.as_slice());
    proof {
        lemma_hex_lower_shape(digest@);
    }
    hash
}

} // verus!
