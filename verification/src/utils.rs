use uuid::Uuid;
use vstd::prelude::*;

use crate::text::{hex_digit, hex_lower};

verus! {

/// The 16 bytes of a UUID held as a 128-bit number, most significant first.
pub open spec fn uuid_bytes(value: u128) -> Seq<u8> {
    Seq::new(16, |i: int| ((value >> ((8 * (15 - i)) as u128)) & 0xffu128) as u8)
}

/// The hyphenated lowercase text of a UUID: its 32 hexadecimal digits in
/// groups of 8, 4, 4, 4 and 12, joined by `-`.
pub open spec fn uuid_text(value: u128) -> Seq<char> {
    let h = hex_lower(uuid_bytes(value));
    h.subrange(0, 8) + seq!['-'] + h.subrange(8, 12) + seq!['-'] + h.subrange(12, 16) + seq!['-']
        + h.subrange(16, 20) + seq!['-'] + h.subrange(20, 32)
}

/// A lowercase hexadecimal digit.
pub open spec fn is_lower_hex(c: char) -> bool {
    ('0' <= c && c <= '9') || ('a' <= c && c <= 'f')
}

/// Text in the shape of a hyphenated lowercase UUID.
pub open spec fn is_uuid_text(s: Seq<char>) -> bool {
    &&& s.len() == 36
    &&& forall|i: int|
        0 <= i < 36 ==> if i == 8 || i == 13 || i == 18 || i == 23 {
            #[trigger] s[i] == '-'
        } else {
            is_lower_hex(s[i])
        }
}

/// A 128-bit value that carries the marks of a random (version 4, RFC 4122
/// variant) UUID.
pub open spec fn is_v4(value: u128) -> bool {
    (value >> 76u128) & 0xfu128 == 4u128 && (value >> 62u128) & 0x3u128 == 2u128
}

/// `Uuid::new_v4()` (uuid 1): 122 random bits with the version set to 4 and
/// the variant to RFC 4122, returned by `as_u128`. Only those marks are
/// claimed of the value.
#[verifier::external_body]
fn new_v4_value() -> (value: u128)
    ensures
        is_v4(value),
{
    Uuid::new_v4().as_u128()
}

/// `Uuid::from_u128(value).to_string()` (uuid 1): its `Display` writes the
/// hyphenated lowercase form.
#[verifier::external_body]
fn uuid_string(value: u128) -> (text: String)
    ensures
        text@ == uuid_text(value),
{
    Uuid::from_u128(value).to_string()
}

proof fn lemma_hex_lower_digits(bytes: Seq<u8>)
    ensures
        hex_lower(bytes).len() == 2 * bytes.len(),
        forall|i: int| 0 <= i < hex_lower(bytes).len() ==> is_lower_hex(#[trigger] hex_lower(bytes)[i]),
    decreases bytes.len(),
{
    if bytes.len() > 0 {
        lemma_hex_lower_digits(bytes.drop_last());
        let b = bytes.last();
        assert(is_lower_hex(hex_digit(b / 16)));
        assert(is_lower_hex(hex_digit(b % 16)));
        let h = hex_lower(bytes);
        let p = hex_lower(bytes.drop_last());
        assert forall|i: int| 0 <= i < h.len() implies is_lower_hex(#[trigger] h[i]) by {
            if i < p.len() {
                assert(h[i] == p[i]);
            }
        }
    }
}

/// Every UUID's text has the hyphenated lowercase shape.
pub proof fn lemma_uuid_text_shape(value: u128)
    ensures
        is_uuid_text(uuid_text(value)),
{
    let b = uuid_bytes(value);
    lemma_hex_lower_digits(b);
    let h = hex_lower(b);
    let s = uuid_text(value);
    assert(s.len() == 36);
    assert forall|i: int| 0 <= i < 36 implies if i == 8 || i == 13 || i == 18 || i == 23 {
        #[trigger] s[i] == '-'
    } else {
        is_lower_hex(s[i])
    } by {
        if i < 8 {
            assert(s[i] == h[i]);
        } else if 8 < i < 13 {
            assert(s[i] == h[i - 1]);
        } else if 13 < i < 18 {
            assert(s[i] == h[i - 2]);
        } else if 18 < i < 23 {
            assert(s[i] == h[i - 3]);
        } else if 23 < i {
            assert(s[i] == h[i - 4]);
        }
    }
}

/// A fresh random UUID in hyphenated lowercase form.
pub fn generate_uuid() -> (id: String)
    ensures
        is_uuid_text(id@),
        exists|value: u128| is_v4(value) && id@ == uuid_text(value),
{
    let value = new_v4_value();
    proof {
        lemma_uuid_text_shape(value);
    }
    uuid_string(value)
}

} // verus!
