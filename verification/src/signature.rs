//! Authentication of GitHub webhook deliveries (`X-Hub-Signature-256`).
use vstd::prelude::*;
use vstd::utf8::encode_utf8;
use hmac::{Hmac, Mac};
use sha2::Sha256;
use crate::text::{str_chars, has_prefix_at};
use crate::calldata::hex_lower_digit;

verus! {

/// Whether `b` is an ASCII hexadecimal digit, in either case.
pub open spec fn is_hex_digit(b: u8) -> bool {
    (48 <= b <= 57) || (97 <= b <= 102) || (65 <= b <= 70)
}

/// The value of the hexadecimal digit `b`.
pub open spec fn hex_digit_value(b: u8) -> int {
    if 48 <= b <= 57 {
        b - 48
    } else if 97 <= b <= 102 {
        b - 97 + 10
    } else {
        b - 65 + 10
    }
}

/// Whether `t` is a hexadecimal text: an even number of hex digits.
pub open spec fn hex_text_valid(t: Seq<u8>) -> bool {
    t.len() % 2 == 0 && forall|i: int| 0 <= i < t.len() ==> is_hex_digit(#[trigger] t[i])
}

/// The bytes that the hexadecimal text `t` stands for, two digits a byte,
/// the high nibble first.
pub open spec fn hex_text_bytes(t: Seq<u8>) -> Seq<u8> {
    Seq::new(
        t.len() / 2,
        |i: int| (hex_digit_value(t[2 * i]) * 16 + hex_digit_value(t[2 * i + 1])) as u8,
    )
}

/// Calls `hex::decode` on the bytes `text`. Its source accepts exactly the
/// texts of even length made of hex digits of either case, and decodes each
/// pair of digits into one byte, high nibble first; the contract says so.
#[verifier::external_body]
fn hex_decode(text: &[u8]) -> (res: Option<Vec<u8>>)
    ensures
        res is Some <==> hex_text_valid(text@),
        res matches Some(v) ==> v@ == hex_text_bytes(text@),
{
    hex::decode(text).ok()
}

/// The HMAC-SHA256 tag of `message` under `key`.
pub uninterp spec fn spec_hmac_sha256(key: Seq<u8>, message: Seq<u8>) -> Seq<u8>;

/// Computes the HMAC-SHA256 of `message` under `key` with the `hmac` and
/// `sha2` crates (`new_from_slice`, `update`) and checks `tag` against it
/// with `verify_slice`, a constant-time comparison that also rejects tags of
/// another length. The contract claims that the result is whether `tag` is
/// the named tag; `new_from_slice` never fails for HMAC, whatever the key.
#[verifier::external_body]
fn hmac_sha256_verify(key: &[u8], message: &[u8], tag: &[u8]) -> (res: bool)
    ensures
        res == (tag@ == spec_hmac_sha256(key@, message@)),
{
    let mut mac = match Hmac::<Sha256>::new_from_slice(key) {
        Ok(m) => m,
        Err(_) => return false,
    };
    mac.update(message);
    mac.verify_slice(tag).is_ok()
}

/// Whether `header` is a valid `X-Hub-Signature-256` value for `payload`
/// under the webhook secret `secret`: "sha256=" followed by the hexadecimal
/// HMAC-SHA256 of the payload keyed with the UTF-8 bytes of the secret.
pub open spec fn signature_valid(secret: Seq<char>, payload: Seq<u8>, header: Seq<char>) -> bool {
    &&& header.len() >= 7
    &&& header.take(7) == "sha256="@
    &&& hex_text_valid(encode_utf8(header.skip(7)))
    &&& hex_text_bytes(encode_utf8(header.skip(7))) == spec_hmac_sha256(encode_utf8(secret), payload)
}

/// The lower-case hexadecimal text of `bytes`, two digits a byte, the high
/// nibble first (as `hex::encode` writes it, and GitHub sends it).
pub open spec fn hex_lower_text(bytes: Seq<u8>) -> Seq<char> {
    Seq::new(
        2 * bytes.len(),
        |i: int|
            if i % 2 == 0 {
                hex_lower_digit((bytes[i / 2] / 16) as nat)
            } else {
                hex_lower_digit((bytes[i / 2] % 16) as nat)
            },
    )
}

/// A hexadecimal digit written in lower case reads back as its value.
proof fn lemma_hex_digit_roundtrip(d: nat)
    requires
        d < 16,
    ensures
        (hex_lower_digit(d) as u32) < 128,
        is_hex_digit(hex_lower_digit(d) as u8),
        hex_digit_value(hex_lower_digit(d) as u8) == d,
{
    if d < 10 {
        assert(((48 + d) as char) as u32 == 48 + d);
        assert(((48 + d) as char) as u8 == 48 + d);
    } else {
        assert(((87 + d) as char) as u32 == 87 + d);
        assert(((87 + d) as char) as u8 == 87 + d);
    }
}

/// The signature GitHub sends is accepted: "sha256=" followed by the
/// lower-case hexadecimal HMAC-SHA256 of the exact payload, keyed with the
/// webhook secret, is a valid signature header for that payload.
pub proof fn lemma_github_signature_accepted(secret: Seq<char>, payload: Seq<u8>)
    ensures
        signature_valid(
            secret,
            payload,
            "sha256="@ + hex_lower_text(spec_hmac_sha256(encode_utf8(secret), payload)),
        ),
{
    reveal_strlit("sha256=");
    let tag = spec_hmac_sha256(encode_utf8(secret), payload);
    let h = hex_lower_text(tag);
    let header = "sha256="@ + h;
    assert(header.take(7) =~= "sha256="@);
    assert(header.skip(7) =~= h);
    assert forall|i: int| 0 <= i < h.len() implies '\0' <= #[trigger] h[i] <= '\u{7f}' by {
        if i % 2 == 0 {
            lemma_hex_digit_roundtrip((tag[i / 2] / 16) as nat);
        } else {
            lemma_hex_digit_roundtrip((tag[i / 2] % 16) as nat);
        }
    }
    assert(vstd::utf8::is_ascii_chars(h));
    vstd::utf8::is_ascii_chars_encode_utf8(h);
    let t = encode_utf8(h);
    assert forall|i: int| 0 <= i < t.len() implies is_hex_digit(#[trigger] t[i]) by {
        assert(h[i] as u8 == t[i]);
        if i % 2 == 0 {
            lemma_hex_digit_roundtrip((tag[i / 2] / 16) as nat);
        } else {
            lemma_hex_digit_roundtrip((tag[i / 2] % 16) as nat);
        }
    }
    assert forall|k: int| 0 <= k < tag.len() implies #[trigger] hex_text_bytes(t)[k] == tag[k] by {
        assert(h[2 * k] as u8 == t[2 * k]);
        assert(h[2 * k + 1] as u8 == t[2 * k + 1]);
        assert((2 * k) % 2 == 0);
        assert((2 * k + 1) % 2 == 1);
        assert((2 * k) / 2 == k);
        assert((2 * k + 1) / 2 == k);
        lemma_hex_digit_roundtrip((tag[k] / 16) as nat);
        lemma_hex_digit_roundtrip((tag[k] % 16) as nat);
    }
    assert(hex_text_bytes(t) =~= tag);
}

/// A header without the "sha256=" prefix is never a valid signature.
pub proof fn lemma_unprefixed_signature_rejected(secret: Seq<char>, payload: Seq<u8>, header: Seq<char>)
    requires
        header.len() < 7 || header.take(7) != "sha256="@,
    ensures
        !signature_valid(secret, payload, header),
{
}

/// A signature header fixes the tag it vouches for: if one header is valid
/// for two payloads under the same secret, both payloads have the same
/// HMAC-SHA256 tag. A changed payload is thus rejected unless its tag
/// collides with the original's.
pub proof fn lemma_signature_binds_tag(secret: Seq<char>, p1: Seq<u8>, p2: Seq<u8>, header: Seq<char>)
    requires
        signature_valid(secret, p1, header),
        signature_valid(secret, p2, header),
    ensures
        spec_hmac_sha256(encode_utf8(secret), p1) == spec_hmac_sha256(encode_utf8(secret), p2),
{
}

/// Checks a GitHub webhook signature header against the payload.
pub fn verify_webhook_signature(secret: &str, payload: &[u8], signature_header: &str) -> (res:
    bool)
    ensures
        res == signature_valid(secret@, payload@, signature_header@),
{
    let header = str_chars(signature_header);
    let prefix = str_chars("sha256=");
    proof {
        reveal_strlit("sha256=");
    }
    if !has_prefix_at(&header, 0, &prefix) {
        assert(prefix@.len() == 7);
        proof {
            if header@.len() >= 7 {
                assert(header@.subrange(0, 7) =~= header@.take(7));
            }
        }
        return false;
    }
    assert(header@.subrange(0, 7) =~= header@.take(7));
    let hex_sig = signature_header.substring_char(7, header.len());
    assert(hex_sig@ =~= signature_header@.skip(7));
    let sig_bytes = match hex_decode(hex_sig.as_bytes()) {
        Some(b) => b,
        None => return false,
    };
    hmac_sha256_verify(secret.as_bytes(), payload, sig_bytes.as_slice())
}

} // verus!
