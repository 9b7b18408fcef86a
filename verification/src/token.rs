//! Login tokens: the MD5 digest, in upper-case hexadecimal, of a key
//! followed by a fresh random UUID.
use vstd::prelude::*;
use crate::digest::{md5_hex, md5_hex_spec};
use crate::text::{append_str, hex_bytes};

verus! {

pub struct Token {}

/// The sixteen bytes of a random (version 4, RFC 4122 variant) UUID: the
/// high half of byte 6 is the version 4, the two high bits of byte 8 are `10`.
pub open spec fn is_v4_uuid_bytes(b: Seq<u8>) -> bool {
    &&& b.len() == 16
    &&& b[6] / 16 == 4
    &&& b[8] / 64 == 2
}

/// The hyphenated lower-case text of the UUID of bytes `b`: groups of
/// 4, 2, 2, 2 and 6 bytes in hexadecimal, joined by `-`.
pub open spec fn uuid_text(b: Seq<u8>) -> Seq<char> {
    hex_bytes(b.subrange(0, 4), false) + seq!['-'] + hex_bytes(b.subrange(4, 6), false) + seq!['-']
        + hex_bytes(b.subrange(6, 8), false) + seq!['-'] + hex_bytes(b.subrange(8, 10), false)
        + seq!['-'] + hex_bytes(b.subrange(10, 16), false)
}

/// Whether `t` is the text of a random UUID.
pub open spec fn is_v4_uuid_text(t: Seq<char>) -> bool {
    exists|b: Seq<u8>| is_v4_uuid_bytes(b) && t == #[trigger] uuid_text(b)
}

/// `Uuid::new_v4().to_string()`: a fresh random UUID of version 4 and the
/// RFC 4122 variant (`Builder::set_version`, `set_variant`), in its
/// hyphenated lower-case form (`Display` writes `to_hyphenated_ref`), 36
/// characters long. Which bytes come out depends on chance and is not
/// stated; the call panics where the system gives no random bytes.
#[verifier::external_body]
fn new_uuid_text() -> (res: String)
    ensures
        res@.len() == 36,
        is_v4_uuid_text(res@),
{
    uuid::Uuid::new_v4().to_string()
}

/// The token made of `key` and the random text `nonce`.
pub open spec fn token_text(key: Seq<char>, nonce: Seq<char>) -> Seq<char> {
    md5_hex_spec(key + nonce, true)
}

impl Token {
    /// The token made of `key` and `nonce`: the upper-case hexadecimal MD5
    /// digest of `key` followed by `nonce`.
    pub fn token_from(key: &str, nonce: &str) -> (res: String)
        ensures
            res@ == token_text(key@, nonce@),
            res@.len() == 32,
    {
        let mut s = key.to_owned();
        append_str(&mut s, nonce);
        md5_hex(s.as_str(), true)
    }

    /// A new token for `key`, made with a fresh random UUID.
    pub fn make_token(key: &str) -> (res: String)
        ensures
            res@.len() == 32,
            exists|nonce: Seq<char>| is_v4_uuid_text(nonce) && res@ == #[trigger] token_text(key@, nonce),
    {
        let nonce = new_uuid_text();
        Self::token_from(key, nonce.as_str())
    }
}

} // verus!
