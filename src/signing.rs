use vstd::prelude::*;
use vstd::utf8::encode_utf8;

verus! {

/// Inputs to HMAC-SHA256 stay below this many bytes: the digest counts an
/// input's length in bits in a `u64` and panics past it.
pub const MAX_SIGNED_BYTES: u64 = 0x1000_0000_0000_0000;

/// HMAC-SHA256 of a message under a key, both as bytes.
pub uninterp spec fn hmac_sha256(key: Seq<u8>, msg: Seq<u8>) -> Seq<u8>;

/// Relies on ring's `hmac::Key::new` and `hmac::sign` with `HMAC_SHA256`:
/// the tag depends on the key and the message alone and is 32 bytes long
/// (the SHA-256 output length). Both calls panic only when a length in
/// bits overflows a `u64`, which the bound excludes.
#[verifier::external_body]
fn hmac_sha256_tag(key: &[u8], msg: &[u8]) -> (r: Vec<u8>)
    requires
        key@.len() < MAX_SIGNED_BYTES,
        msg@.len() < MAX_SIGNED_BYTES,
    ensures
        r@ == hmac_sha256(key@, msg@),
        r@.len() == 32,
{
    let k = ring::hmac::Key::new(ring::hmac::HMAC_SHA256, key);
    ring::hmac::sign(&k, msg).as_ref().to_vec()
}

/// Lower-case hexadecimal digit of a nibble.
pub open spec fn hex_lower(d: nat) -> char {
    if d < 10 {
        (d + 48) as char
    } else {
        (d + 87) as char
    }
}

/// Two lower-case hexadecimal digits per byte, high nibble first.
pub open spec fn lower_hex(bs: Seq<u8>) -> Seq<char>
    decreases bs.len(),
{
    if bs.len() == 0 {
        seq![]
    } else {
        lower_hex(bs.drop_last()) + seq![
            hex_lower(bs.last() as nat / 16),
            hex_lower(bs.last() as nat % 16),
        ]
    }
}

/// Relies on `hex::encode`: each byte becomes two characters of
/// `0123456789abcdef`, high nibble first.
#[verifier::external_body]
fn hex_encode(bytes: &[u8]) -> (r: String)
    ensures
        r@ == lower_hex(bytes@),
{
    hex::encode(bytes)
}

/// A text that HMAC-SHA256 can take as key or message.
pub open spec fn signable(s: Seq<char>) -> bool {
    encode_utf8(s).len() < MAX_SIGNED_BYTES
}

/// The signature of a message: HMAC-SHA256 over its UTF-8 bytes, keyed by
/// the secret's UTF-8 bytes, in lower-case hexadecimal.
pub open spec fn signature_of(secret: Seq<char>, msg: Seq<char>) -> Seq<char> {
    lower_hex(hmac_sha256(encode_utf8(secret), encode_utf8(msg)))
}

proof fn lower_hex_len(bs: Seq<u8>)
    ensures
        lower_hex(bs).len() == 2 * bs.len(),
    decreases bs.len(),
{
    if bs.len() > 0 {
        lower_hex_len(bs.drop_last());
    }
}

/// Every character of a hex rendering is a lower-case hexadecimal digit.
pub proof fn lemma_lower_hex_digits(bs: Seq<u8>)
    ensures
        forall|i: int|
            0 <= i < lower_hex(bs).len() ==> {
                let c = #[trigger] lower_hex(bs)[i];
                ('0' <= c && c <= '9') || ('a' <= c && c <= 'f')
            },
    decreases bs.len(),
{
    if bs.len() > 0 {
        lemma_lower_hex_digits(bs.drop_last());
        let prev = lower_hex(bs.drop_last());
        let hi = hex_lower(bs.last() as nat / 16);
        let lo = hex_lower(bs.last() as nat % 16);
        assert(lower_hex(bs) == prev + seq![hi, lo]);
        assert forall|i: int| 0 <= i < lower_hex(bs).len() implies {
            let c = #[trigger] lower_hex(bs)[i];
            ('0' <= c && c <= '9') || ('a' <= c && c <= 'f')
        } by {
            if i < prev.len() {
                assert(lower_hex(bs)[i] == prev[i]);
            }
        }
    }
}

/// Signs a message with a secret. An empty secret is accepted: the message
/// is then signed under the empty key.
pub fn sign(secret: &str, message: &str) -> (r: String)
    requires
        signable(secret@),
        signable(message@),
    ensures
        r@ == signature_of(secret@, message@),
        r@.len() == 64,
{
    let tag = hmac_sha256_tag(secret.as_bytes(), message.as_bytes());
    let r = hex_encode(tag.as_slice());
    proof {
        lower_hex_len(tag@);
    }
    r
}

/// Signing is deterministic and depends on nothing but its inputs: the
/// same secret and the same message always give the same signature.
pub proof fn lemma_signing_deterministic(
    secret1: Seq<char>,
    msg1: Seq<char>,
    secret2: Seq<char>,
    msg2: Seq<char>,
)
    requires
        secret1 == secret2,
        msg1 == msg2,
    ensures
        signature_of(secret1, msg1) == signature_of(secret2, msg2),
{
}

} // verus!
