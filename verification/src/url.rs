//! What counts as a well-formed absolute URL.

use vstd::prelude::*;
use vstd::string::*;

verus! {

/// An ASCII letter.
pub open spec fn is_letter(c: char) -> bool {
    ('a' <= c && c <= 'z') || ('A' <= c && c <= 'Z')
}

/// A character that may stand in a scheme: a letter, a digit, `+`, `-` or `.`.
pub open spec fn is_scheme_char(c: char) -> bool {
    is_letter(c) || ('0' <= c && c <= '9') || c == '+' || c == '-' || c == '.'
}

/// A character that may stand after the scheme: printable ASCII, no space.
pub open spec fn is_url_char(c: char) -> bool {
    '!' <= c && c <= '~'
}

/// Whether the text is a scheme of `colon` characters, a colon, and a
/// non-empty rest.
pub open spec fn splits_at(text: Seq<char>, colon: int) -> bool {
    &&& 0 < colon < text.len() - 1
    &&& text[colon] == ':'
    &&& is_letter(text[0])
    &&& forall|j: int| 0 <= j < colon ==> is_scheme_char(#[trigger] text[j])
    &&& forall|j: int| colon < j < text.len() ==> is_url_char(#[trigger] text[j])
}

/// Whether the text is a well-formed absolute URL: a scheme that starts with
/// a letter and goes on with scheme characters, then a colon, then at least
/// one more character, all of them printable ASCII without spaces.
pub open spec fn is_absolute_url(text: Seq<char>) -> bool {
    exists|colon: int| splits_at(text, colon)
}

/// The byte of `:`.
const COLON: u8 = 0x3a;

/// Whether the byte is that of an ASCII letter.
fn letter(b: u8) -> (yes: bool)
    ensures
        yes == is_letter(b as char),
{
    // 'a'..='z' and 'A'..='Z'
    (0x61 <= b && b <= 0x7a) || (0x41 <= b && b <= 0x5a)
}

/// Whether the byte is that of a character that may stand in a scheme.
fn scheme_char(b: u8) -> (yes: bool)
    ensures
        yes == is_scheme_char(b as char),
{
    // '0'..='9', '+', '-' and '.'
    letter(b) || (0x30 <= b && b <= 0x39) || b == 0x2b || b == 0x2d || b == 0x2e
}

/// Whether the byte is that of a character that may stand after the scheme.
fn url_char(b: u8) -> (yes: bool)
    ensures
        yes == is_url_char(b as char),
{
    // '!'..='~'
    0x21 <= b && b <= 0x7e
}

/// A text that splits into scheme, colon and rest is plain ASCII.
proof fn absolute_url_is_ascii(text: Seq<char>)
    requires
        is_absolute_url(text),
    ensures
        vstd::utf8::is_ascii_chars(text),
{
    let colon = choose|colon: int| splits_at(text, colon);
    assert forall|i: int| 0 <= i < text.len() implies '\0' <= #[trigger] text[i] <= '\u{7f}' by {
        if i < colon {
            assert(is_scheme_char(text[i]));
        } else if i > colon {
            assert(is_url_char(text[i]));
        }
    }
}

/// Decides whether the text is a well-formed absolute URL.
pub fn check_absolute_url(text: &str) -> (well_formed: bool)
    ensures
        well_formed == is_absolute_url(text@),
{
    if !text.is_ascii() {
        proof {
            if is_absolute_url(text@) {
                absolute_url_is_ascii(text@);
            }
        }
        return false;
    }
    let n: usize = text.unicode_len();
    assert(forall|j: int| 0 <= j < n ==> (#[trigger] text@[j] as u8) as char == text@[j]);
    let mut colon: usize = 0;
    while colon < n && scheme_char(text.get_ascii(colon))
        invariant
            colon <= n,
            n == text@.len(),
            text.is_ascii(),
            forall|j: int| 0 <= j < n ==> (#[trigger] text@[j] as u8) as char == text@[j],
            forall|j: int| 0 <= j < colon ==> is_scheme_char(#[trigger] text@[j]),
        decreases n - colon,
    {
        colon += 1;
    }
    // `colon` is now the first place that holds no scheme character, so a
    // split can only be there.
    assert forall|k: int| splits_at(text@, k) implies k == colon by {
        if k < colon {
            assert(is_scheme_char(text@[k]));
        } else if k > colon {
            assert(is_scheme_char(text@[colon as int]));
        }
    }
    if colon == 0 || colon >= n - 1 {
        return false;
    }
    if text.get_ascii(colon) != COLON || !letter(text.get_ascii(0)) {
        return false;
    }
    let mut i: usize = colon + 1;
    while i < n
        invariant
            colon < i <= n,
            n == text@.len(),
            text.is_ascii(),
            forall|j: int| 0 <= j < n ==> (#[trigger] text@[j] as u8) as char == text@[j],
            forall|j: int| colon < j < i ==> is_url_char(#[trigger] text@[j]),
        decreases n - i,
    {
        if !url_char(text.get_ascii(i)) {
            assert(!is_url_char(text@[i as int]));
            return false;
        }
        i += 1;
    }
    assert(splits_at(text@, colon as int));
    true
}

} // verus!
