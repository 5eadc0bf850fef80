//! Short random identifier strings for URLs and similar non-cryptographic uses.
//!
//! Two generators are offered: [`randid_str`] draws characters from a fixed
//! 62-symbol alphanumeric alphabet, and [`randid_i32`] draws decimal digits,
//! yielding a fixed-width, zero-padded numeric string. Neither guarantees
//! uniqueness. A non-positive requested length yields the empty string.

use vstd::prelude::*;

mod entropy;

verus! {

/// The character at position `i` of the 62-symbol alphabet: the digits
/// `0`-`9` first, then the uppercase letters `A`-`Z`, then the lowercase
/// letters `a`-`z`.
pub open spec fn base62_char_at(i: int) -> char
    recommends
        0 <= i < 62,
{
    if i < 10 {
        (48 + i) as char
    } else if i < 36 {
        (55 + i) as char
    } else {
        (61 + i) as char
    }
}

/// The full alphabet as an ordered sequence of its 62 characters.
pub open spec fn base62_alphabet() -> Seq<char> {
    Seq::new(62, |i: int| base62_char_at(i))
}

/// Membership in the 62-symbol alphabet: an ASCII digit or letter.
pub open spec fn is_base62_char(c: char) -> bool {
    ('0' <= c && c <= '9') || ('A' <= c && c <= 'Z') || ('a' <= c && c <= 'z')
}

/// Membership in the decimal-digit subset of the alphabet.
pub open spec fn is_digit_char(c: char) -> bool {
    '0' <= c && c <= '9'
}

/// The alphabet is well formed: it holds exactly 62 characters, every one an
/// ASCII digit or letter, pairwise distinct, and its first ten characters
/// are decimal digits.
pub proof fn lemma_alphabet_well_formed()
    ensures
        base62_alphabet().len() == 62,
        forall|i: int| 0 <= i < 62 ==> is_base62_char(#[trigger] base62_alphabet()[i]),
        forall|i: int, j: int|
            0 <= i < 62 && 0 <= j < 62 && i != j ==> base62_alphabet()[i] != base62_alphabet()[j],
        forall|i: int| 0 <= i < 10 ==> is_digit_char(#[trigger] base62_alphabet()[i]),
{
    assert forall|i: int, j: int|
        0 <= i < 62 && 0 <= j < 62 && i != j implies base62_alphabet()[i]
        != base62_alphabet()[j] by {
        assert(base62_char_at(i) as int != base62_char_at(j) as int);
    }
}

/// Maps an index in `[0, 62)` to its character of the alphabet.
fn base62_char(idx: u32) -> (c: char)
    requires
        idx < 62,
    ensures
        c == base62_char_at(idx as int),
        is_base62_char(c),
{
    let b: u8 = if idx < 10 {
        48 + idx as u8
    } else if idx < 36 {
        55 + idx as u8
    } else {
        61 + idx as u8
    };
    b as char
}

/// Relies on String::push: appends the given character to the end of the
/// string.
#[verifier::external_body]
fn push_char(s: &mut String, c: char)
    ensures
        final(s)@ == old(s)@.push(c),
{
    s.push(c);
}

/// Generates a random alphanumeric string of exactly `len` characters, each
/// drawn independently and uniformly from the 62-symbol alphabet of
/// [`base62_alphabet`]. A non-positive `len` yields the empty string.
pub fn randid_str(len: i32) -> (r: String)
    ensures
        r@.len() == if len <= 0 { 0int } else { len as int },
        forall|i: int| 0 <= i < r@.len() ==> is_base62_char(#[trigger] r@[i]),
{
    let mut generated = String::new();
    let mut rng = entropy::fresh_rng();
    let mut made: i32 = 0;
    while made < len
        invariant
            0 <= made,
            made <= len || made == 0,
            generated@.len() == made as int,
            forall|i: int| 0 <= i < generated@.len() ==> is_base62_char(#[trigger] generated@[i]),
        decreases len - made,
    {
        let idx = entropy::draw_below(&mut rng, 62);
        let c = base62_char(idx);
        push_char(&mut generated, c);
        made = made + 1;
    }
    generated
}

/// Generates a random fixed-width numeric string of exactly `len` decimal
/// digits, each drawn independently and uniformly from `0`-`9` inclusive;
/// leading zeros are kept. A non-positive `len` yields the empty string.
pub fn randid_i32(len: i32) -> (r: String)
    ensures
        r@.len() == if len <= 0 { 0int } else { len as int },
        forall|i: int| 0 <= i < r@.len() ==> is_digit_char(#[trigger] r@[i]),
{
    let mut generated = String::new();
    let mut rng = entropy::fresh_rng();
    let mut made: i32 = 0;
    while made < len
        invariant
            0 <= made,
            made <= len || made == 0,
            generated@.len() == made as int,
            forall|i: int| 0 <= i < generated@.len() ==> is_digit_char(#[trigger] generated@[i]),
        decreases len - made,
    {
        let digit = entropy::draw_below(&mut rng, 10);
        let c = base62_char(digit);
        push_char(&mut generated, c);
        made = made + 1;
    }
    generated
}

} // verus!
