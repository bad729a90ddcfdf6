use vstd::prelude::*;
use vstd::arithmetic::power::pow;
use crate::text::all_ascii;

verus! {

/// The lowercase hexadecimal digit for `d` (`0 <= d < 16`).
pub open spec fn hex_digit(d: int) -> char {
    if d < 10 {
        (48 + d) as char
    } else {
        (87 + d) as char
    }
}

/// The 32 lowercase hexadecimal digits of a 128-bit id, most significant first.
pub open spec fn id_hex(v: u128) -> Seq<char> {
    Seq::new(32, |i: int| hex_digit((v as int / pow(16, (31 - i) as nat)) % 16))
}

/// The hyphenated text of an id, grouped 8-4-4-4-12:
/// `67e55044-10b1-426f-9247-bb680e5fe0c8`.
pub open spec fn id_text(v: u128) -> Seq<char> {
    let h = id_hex(v);
    h.subrange(0, 8) + seq!['-'] + h.subrange(8, 12) + seq!['-'] + h.subrange(12, 16) + seq!['-']
        + h.subrange(16, 20) + seq!['-'] + h.subrange(20, 32)
}

/// What `Uuid::from_str` gives for a text: the id it denotes, if the text is
/// one of the forms that the uuid crate reads.
pub uninterp spec fn id_parsed(s: Seq<char>) -> Option<u128>;

/// The text of an id has 36 ASCII characters.
pub proof fn lemma_id_text_shape(v: u128)
    ensures
        id_text(v).len() == 36,
        all_ascii(id_text(v)),
{
    let h = id_hex(v);
    assert forall|i: int| 0 <= i < 32 implies (#[trigger] h[i] as u32) < 128 by {
        let d = (v as int / pow(16, (31 - i) as nat)) % 16;
        assert(0 <= d < 16) by {
            vstd::arithmetic::power::lemma_pow_positive(16, (31 - i) as nat);
        }
    }
    let t = id_text(v);
    assert forall|i: int| 0 <= i < t.len() implies (#[trigger] t[i] as u32) < 128 by {
        if i < 8 {
            assert(t[i] == h[i]);
        } else if i == 8 || i == 13 || i == 18 || i == 23 {
        } else if i < 13 {
            assert(t[i] == h[i - 1]);
        } else if i < 18 {
            assert(t[i] == h[i - 2]);
        } else if i < 23 {
            assert(t[i] == h[i - 3]);
        } else {
            assert(t[i] == h[i - 4]);
        }
    }
}

/// A fresh random (version 4) id (`Uuid::new_v4`). Nothing is claimed of
/// the value: it comes from the system's random source.
#[verifier::external_body]
pub(crate) fn new_random_id() -> u128 {
    uuid::Uuid::new_v4().as_u128()
}

/// The hyphenated lowercase text of an id (`Uuid::to_string`, through
/// `Display`): claimed to be exactly `id_text`, the 8-4-4-4-12 grouping of
/// the big-endian hexadecimal digits that the uuid crate's `format_hyphenated`
/// writes.
#[verifier::external_body]
pub(crate) fn id_to_text(id: u128) -> (r: String)
    ensures
        r@ == id_text(id),
{
    uuid::Uuid::from_u128(id).to_string()
}

/// Reads an id from text (`Uuid::from_str`). Claimed: the result is the
/// named `id_parsed` of the text, and the hyphenated text of an id reads
/// back as that id.
#[verifier::external_body]
pub(crate) fn parse_id(s: &str) -> (r: Option<u128>)
    ensures
        r == id_parsed(s@),
        forall|v: u128| s@ == id_text(v) ==> r == Some(v),
{
    <uuid::Uuid as std::str::FromStr>::from_str(s).ok().map(|u| u.as_u128())
}

} // verus!
