//! The signer: HMAC-SHA1 of the text to sign under the secret key, in base64.

use crypto::hmac::Hmac;
use crypto::mac::Mac;
use crypto::sha1::Sha1;
use vstd::prelude::*;
use vstd::utf8::encode_utf8;

verus! {

/// The HMAC-SHA1 code of `data` under `key`. The hash itself is not spelled
/// out here: the name stands for what the `crypto` crate computes.
pub uninterp spec fn hmac_sha1(key: Seq<u8>, data: Seq<u8>) -> Seq<u8>;

/// The number of bytes in an HMAC-SHA1 code.
pub const CODE_LEN: usize = 20;

/// SHA-1 counts its input in bits, in a 64-bit counter: it takes fewer than
/// this many bytes.
pub const HASH_LIMIT: u64 = 0x2000_0000_0000_0000;

/// Whether HMAC-SHA1 takes a key and a message of these lengths. A key longer
/// than a block is hashed by itself; the message is hashed behind one block of
/// 64 bytes.
pub open spec fn hashable(key_len: nat, data_len: nat) -> bool {
    key_len < HASH_LIMIT && data_len + 64 < HASH_LIMIT
}

/// The character that stands for the six-bit value `v` in the standard alphabet.
pub open spec fn digit(v: int) -> char {
    "ABCDEFGHIJKLMNOPQRSTUVWXYZabcdefghijklmnopqrstuvwxyz0123456789+/"@[v]
}

/// Standard base64 of `bytes`, padded with `=`, without line breaks: each three
/// bytes give four digits, most significant bits first; one or two bytes left
/// over give two or three digits, filled up with zero bits, and `=` up to four.
pub open spec fn base64_standard(bytes: Seq<u8>) -> Seq<char>
    decreases bytes.len(),
{
    if bytes.len() == 0 {
        Seq::empty()
    } else {
        let a = bytes[0] as int;
        if bytes.len() == 1 {
            seq![digit(a / 4), digit(a % 4 * 16), '=', '=']
        } else {
            let b = bytes[1] as int;
            if bytes.len() == 2 {
                seq![digit(a / 4), digit(a % 4 * 16 + b / 16), digit(b % 16 * 4), '=']
            } else {
                let c = bytes[2] as int;
                seq![
                    digit(a / 4),
                    digit(a % 4 * 16 + b / 16),
                    digit(b % 16 * 4 + c / 64),
                    digit(c % 64),
                ] + base64_standard(bytes.skip(3))
            }
        }
    }
}

/// A digit of the standard alphabet.
pub open spec fn is_base64_digit(c: char) -> bool {
    ('A' <= c && c <= 'Z') || ('a' <= c && c <= 'z') || ('0' <= c && c <= '9') || c == '+' || c
        == '/'
}

/// Well-formed standard base64 with padding: groups of four characters, all of
/// them digits, but that the last group may end in one or two `=`.
pub open spec fn is_base64(text: Seq<char>) -> bool {
    &&& text.len() % 4 == 0
    &&& forall|i: int| 0 <= i < text.len() - 2 ==> is_base64_digit(#[trigger] text[i])
    &&& text.len() > 0 ==> {
        let third = text[text.len() - 2];
        let fourth = text[text.len() - 1];
        (is_base64_digit(third) && (is_base64_digit(fourth) || fourth == '=')) || (third == '='
            && fourth == '=')
    }
}

/// The number of characters in the base64 of `n` bytes.
pub open spec fn base64_len(n: nat) -> nat {
    4 * ((n + 2) / 3)
}

/// The signature of `string_to_sign` under `signing_key`: the HMAC-SHA1 code of
/// the text's UTF-8 bytes under the key's, in base64.
pub open spec fn signature_of(string_to_sign: Seq<char>, signing_key: Seq<char>) -> Seq<char> {
    base64_standard(hmac_sha1(encode_utf8(signing_key), encode_utf8(string_to_sign)))
}

/// Whether the text and the key are short enough to be hashed.
pub open spec fn signable(string_to_sign: Seq<char>, signing_key: Seq<char>) -> bool {
    hashable(encode_utf8(signing_key).len(), encode_utf8(string_to_sign).len())
}

/// Every six-bit value has a digit.
pub proof fn lemma_digit_in_alphabet(v: int)
    requires
        0 <= v < 64,
    ensures
        is_base64_digit(digit(v)),
{
    reveal_strlit("ABCDEFGHIJKLMNOPQRSTUVWXYZabcdefghijklmnopqrstuvwxyz0123456789+/");
}

/// What the encoding gives is well-formed base64 of the expected length.
pub proof fn lemma_base64_standard_well_formed(bytes: Seq<u8>)
    ensures
        is_base64(base64_standard(bytes)),
        base64_standard(bytes).len() == base64_len(bytes.len()),
    decreases bytes.len(),
{
    let text = base64_standard(bytes);
    if bytes.len() == 0 {
    } else if bytes.len() == 1 {
        lemma_digit_in_alphabet(bytes[0] as int / 4);
        lemma_digit_in_alphabet(bytes[0] as int % 4 * 16);
    } else if bytes.len() == 2 {
        lemma_digit_in_alphabet(bytes[0] as int / 4);
        lemma_digit_in_alphabet(bytes[0] as int % 4 * 16 + bytes[1] as int / 16);
        lemma_digit_in_alphabet(bytes[1] as int % 16 * 4);
    } else {
        let rest = base64_standard(bytes.skip(3));
        lemma_base64_standard_well_formed(bytes.skip(3));
        lemma_digit_in_alphabet(bytes[0] as int / 4);
        lemma_digit_in_alphabet(bytes[0] as int % 4 * 16 + bytes[1] as int / 16);
        lemma_digit_in_alphabet(bytes[1] as int % 16 * 4 + bytes[2] as int / 64);
        lemma_digit_in_alphabet(bytes[2] as int % 64);
        assert forall|i: int| 0 <= i < text.len() - 2 implies is_base64_digit(
            #[trigger] text[i],
        ) by {
            if i >= 4 {
                assert(text[i] == rest[i - 4]);
            }
        }
        if rest.len() > 0 {
            assert(text[text.len() - 2] == rest[rest.len() - 2]);
            assert(text[text.len() - 1] == rest[rest.len() - 1]);
        }
    }
}

/// A character takes at most four bytes in UTF-8.
pub proof fn lemma_utf8_len(chars: Seq<char>)
    ensures
        encode_utf8(chars).len() <= 4 * chars.len(),
    decreases chars.len(),
{
    if chars.len() > 0 {
        lemma_utf8_len(chars.drop_first());
    }
}

/// Texts and keys of any length that occurs in practice can be signed: a
/// quarter of the hash's limit, counted in characters, is always short enough.
pub proof fn lemma_short_texts_are_signable(string_to_sign: Seq<char>, signing_key: Seq<char>)
    requires
        4 * string_to_sign.len() + 64 < HASH_LIMIT,
        4 * signing_key.len() < HASH_LIMIT,
    ensures
        signable(string_to_sign, signing_key),
{
    lemma_utf8_len(string_to_sign);
    lemma_utf8_len(signing_key);
}

/// Signing is deterministic: whatever two calls return for one text under one
/// key is the same text, and it is well-formed base64.
pub proof fn lemma_signature_deterministic(
    string_to_sign: Seq<char>,
    signing_key: Seq<char>,
    first: Seq<char>,
    second: Seq<char>,
)
    requires
        first == signature_of(string_to_sign, signing_key),
        second == signature_of(string_to_sign, signing_key),
    ensures
        first == second,
        is_base64(first),
{
    lemma_base64_standard_well_formed(
        hmac_sha1(encode_utf8(signing_key), encode_utf8(string_to_sign)),
    );
}

/// HMAC-SHA1 of `data` under `key`, computed by `crypto::hmac::Hmac` over
/// `crypto::sha1::Sha1`. Taken on trust: the code is a function of the two
/// byte strings alone and has twenty bytes. The lengths that `requires` leaves
/// out are those on which the hash's bit counter would overflow.
#[verifier::external_body]
pub(crate) fn hmac(key: &[u8], data: &[u8]) -> (code: Vec<u8>)
    requires
        hashable(key@.len(), data@.len()),
    ensures
        code@ == hmac_sha1(key@, data@),
        code@.len() == CODE_LEN,
{
    let mut mac = Hmac::new(Sha1::new(), key);
    mac.input(data);
    mac.result().code().to_vec()
}

/// `base64::encode_config` with `base64::STANDARD`. Taken on trust: the text
/// is the standard base64 of the bytes, padded, without line breaks. The
/// lengths that `requires` leaves out are those whose encoding is longer than
/// a `String` can be.
#[verifier::external_body]
pub(crate) fn encode_standard(bytes: &[u8]) -> (text: String)
    requires
        base64_len(bytes@.len()) <= isize::MAX,
    ensures
        text@ == base64_standard(bytes@),
{
    base64::encode_config(bytes, base64::STANDARD)
}

/// Encodes `bytes` in standard base64 with padding.
pub fn encode(bytes: &[u8]) -> (text: String)
    requires
        base64_len(bytes@.len()) <= isize::MAX,
    ensures
        text@ == base64_standard(bytes@),
        text@.len() == base64_len(bytes@.len()),
        is_base64(text@),
{
    proof {
        lemma_base64_standard_well_formed(bytes@);
    }
    encode_standard(bytes)
}

/// Tells whether `string_to_sign` and `signing_key` are short enough to be
/// signed.
pub fn can_sign(string_to_sign: &str, signing_key: &str) -> (fits: bool)
    ensures
        fits == signable(string_to_sign@, signing_key@),
{
    let key_len = signing_key.as_bytes().len() as u64;
    let text_len = string_to_sign.as_bytes().len() as u64;
    key_len < HASH_LIMIT && text_len < HASH_LIMIT - 64
}

/// Signs `string_to_sign` with `signing_key`. The signature depends on the two
/// texts alone, is well-formed base64 and has 28 characters.
pub fn signature(string_to_sign: &str, signing_key: &str) -> (sig: String)
    requires
        signable(string_to_sign@, signing_key@),
    ensures
        sig@ == signature_of(string_to_sign@, signing_key@),
        is_base64(sig@),
        sig@.len() == 28,
{
    let code = hmac(signing_key.as_bytes(), string_to_sign.as_bytes());
    encode(code.as_slice())
}

} // verus!
