//! Katakana to hiragana: a fixed code-point shift over the katakana block.

use vstd::prelude::*;

verus! {

/// Distance from a katakana code point down to its hiragana counterpart.
pub const KATAKANA_OFFSET: u32 = 0x60;

/// First code point of the shifted katakana range (small a).
pub const KATAKANA_FIRST: u32 = 0x30A1;

/// Last code point of the shifted katakana range (small ke).
pub const KATAKANA_LAST: u32 = 0x30F6;

pub open spec fn is_katakana(c: char) -> bool {
    0x30A1 <= (c as u32) && (c as u32) <= 0x30F6
}

/// The code point that a character maps to.
pub open spec fn hiragana_code(c: char) -> u32 {
    if is_katakana(c) {
        (c as u32 - 0x60) as u32
    } else {
        c as u32
    }
}

pub open spec fn hiragana_char(c: char) -> char {
    hiragana_code(c) as char
}

/// Every character mapped on its own; nothing is inserted or dropped.
pub open spec fn hiragana_of(s: Seq<char>) -> Seq<char> {
    s.map_values(|c: char| hiragana_char(c))
}

/// Relies on char::from_u32: `Some` exactly for Unicode scalar values,
/// holding the character with that code point.
#[verifier::external_body]
fn char_from_code(v: u32) -> (r: Option<char>)
    ensures
        r.is_some() <==> (v < 0xD800 || (0xE000 <= v && v <= 0x10FFFF)),
        r matches Some(c) ==> c as u32 == v,
{
    char::from_u32(v)
}

/// Relies on String::push: appends one character at the end.
#[verifier::external_body]
fn push_char(s: &mut String, c: char)
    ensures
        final(s)@ == old(s)@.push(c),
{
    s.push(c)
}

/// Rewrites every katakana character of `katakana` as hiragana and keeps
/// every other character as it is.
pub fn katakana_to_hiragana(katakana: &str) -> (hiragana: String)
    ensures
        hiragana@ == hiragana_of(katakana@),
        forall|i: int|
            0 <= i < katakana@.len() && is_katakana(#[trigger] katakana@[i]) ==> hiragana@[i] as u32
                == katakana@[i] as u32 - KATAKANA_OFFSET,
{
    let n = katakana.unicode_len();
    let mut hiragana = String::new();
    let mut i: usize = 0;
    while i < n
        invariant
            n == katakana@.len(),
            i <= n,
            hiragana@ == hiragana_of(katakana@.subrange(0, i as int)),
            forall|j: int|
                0 <= j < i && is_katakana(#[trigger] katakana@[j]) ==> hiragana@[j] as u32
                    == katakana@[j] as u32 - KATAKANA_OFFSET,
        decreases n - i,
    {
        let c = katakana.get_char(i);
        let code = c as u32;
        if KATAKANA_FIRST <= code && code <= KATAKANA_LAST {
            let h = char_from_code(code - KATAKANA_OFFSET).unwrap();
            assert(hiragana_char(c) == h) by {
                vstd::utf8::char_u32_cast(h, h as u32);
            }
            push_char(&mut hiragana, h);
        } else {
            push_char(&mut hiragana, c);
        }
        assert(katakana@.subrange(0, i + 1) =~= katakana@.subrange(0, i as int).push(c));
        assert(hiragana_of(katakana@.subrange(0, i as int).push(c)) =~= hiragana_of(
            katakana@.subrange(0, i as int),
        ).push(hiragana_char(c)));
        i = i + 1;
    }
    assert(katakana@.subrange(0, n as int) =~= katakana@);
    hiragana
}

/// Converting keeps the length; each katakana character moves down by the
/// fixed offset; every other character is left alone; the empty text stays
/// empty.
pub proof fn lemma_hiragana_of(s: Seq<char>)
    ensures
        hiragana_of(s).len() == s.len(),
        forall|i: int|
            0 <= i < s.len() && is_katakana(#[trigger] s[i]) ==> hiragana_of(s)[i] == ((s[i] as u32
                - 0x60) as u32) as char,
        forall|i: int| 0 <= i < s.len() && !is_katakana(#[trigger] s[i]) ==> hiragana_of(s)[i] == s[i],
        hiragana_of(Seq::<char>::empty()) =~= Seq::<char>::empty(),
{
    assert forall|i: int| 0 <= i < s.len() implies hiragana_of(s)[i] == hiragana_char(s[i]) by {}
    assert forall|i: int| 0 <= i < s.len() && !is_katakana(s[i]) implies hiragana_of(s)[i] == s[i] by {
        vstd::utf8::char_u32_cast(s[i], s[i] as u32);
    }
}

} // verus!
