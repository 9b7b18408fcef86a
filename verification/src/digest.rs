//! MD5 digests of texts, written out in hexadecimal.
use vstd::prelude::*;
use vstd::utf8::encode_utf8;
use crate::text::{bytes_to_hex, hex_bytes, lemma_hex_bytes_len};

verus! {

/// The MD5 digest of `data`.
pub uninterp spec fn md5_digest(data: Seq<u8>) -> Seq<u8>;

/// `md5::compute`: the sixteen bytes of the MD5 digest of `data`.
#[verifier::external_body]
fn md5_compute(data: &[u8]) -> (res: [u8; 16])
    ensures
        res@ == md5_digest(data@),
{
    md5::compute(data).0
}

/// The MD5 digest of the UTF-8 bytes of `text`, in hexadecimal, upper case
/// (`format!("{:X}", md5::compute(text))`) or lower case (`{:x}`).
pub open spec fn md5_hex_spec(text: Seq<char>, upper: bool) -> Seq<char> {
    hex_bytes(md5_digest(encode_utf8(text)), upper)
}

/// The MD5 digest of the UTF-8 bytes of `text` in hexadecimal: 32 digits.
pub fn md5_hex(text: &str, upper: bool) -> (res: String)
    ensures
        res@ == md5_hex_spec(text@, upper),
        res@.len() == 32,
{
    let digest = md5_compute(text.as_bytes());
    let res = bytes_to_hex(&digest, upper);
    proof {
        lemma_hex_bytes_len(digest@, upper);
    }
    res
}

} // verus!
