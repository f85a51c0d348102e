//! What each character of a raw cell counts as.
//!
//! Digits are the number; whitespace and dashes are formatting; one decimal
//! mark is float debris; anything else means the value is not a GTIN.
use vstd::prelude::*;

verus! {

/// The role one character plays when reading a cell.
#[derive(Debug, Clone, Copy, PartialEq, Eq)]
pub enum CharKind {
    /// An ASCII digit `0`–`9`.
    Digit,
    /// Whitespace, or one of the invisible characters copy-pasted data carries.
    Blank,
    /// A hyphen, dash or soft hyphen.
    Dash,
    /// `.` or `,`: the separator a float leaves behind.
    DecimalMark,
    /// Anything else: the value is not a number.
    Other,
}

/// Unicode's `White_Space` property, as the Unicode Character Database lists
/// it in PropList.txt (unchanged since Unicode 6.3): the controls U+0009 to
/// U+000D, the space, U+0085, the no-break space U+00A0, the Ogham space mark
/// U+1680, the spaces U+2000 to U+200A, the line and paragraph separators
/// U+2028 and U+2029, the narrow no-break space U+202F, the medium
/// mathematical space U+205F and the ideographic space U+3000.
pub open spec fn is_unicode_white_space(c: char) -> bool {
    ||| '\u{9}' <= c <= '\u{D}'
    ||| c == ' '
    ||| c == '\u{85}'
    ||| c == '\u{A0}'
    ||| c == '\u{1680}'
    ||| '\u{2000}' <= c <= '\u{200A}'
    ||| c == '\u{2028}'
    ||| c == '\u{2029}'
    ||| c == '\u{202F}'
    ||| c == '\u{205F}'
    ||| c == '\u{3000}'
}

/// Calls `char::is_whitespace`, whose documentation says it answers whether
/// the character has Unicode's `White_Space` property as PropList.txt
/// specifies it. The contract claims exactly that, with the property written
/// out.
#[verifier::external_body]
fn char_is_whitespace(c: char) -> (b: bool)
    ensures
        b == is_unicode_white_space(c),
{
    c.is_whitespace()
}

/// `c` is an ASCII digit.
pub open spec fn is_digit_char(c: char) -> bool {
    '0' <= c && c <= '9'
}

/// Invisible characters that `is_whitespace` does not report but that appear
/// in copy-pasted data: zero-width space, byte-order mark, word joiner.
pub open spec fn is_invisible_blank(c: char) -> bool {
    c == '\u{200B}' || c == '\u{FEFF}' || c == '\u{2060}'
}

/// Every character that is unambiguously a dash. A closed set.
pub open spec fn is_dash_char(c: char) -> bool {
    c == '-' || c == '\u{00AD}' || c == '\u{2010}' || c == '\u{2011}' || c == '\u{2012}'
        || c == '\u{2013}' || c == '\u{2014}' || c == '\u{2015}' || c == '\u{2212}'
}

/// `c` is a decimal mark: `.` or `,`.
pub open spec fn is_decimal_mark(c: char) -> bool {
    c == '.' || c == ','
}

/// The kind of `c`, given whether it is Unicode whitespace. Tested in this
/// order: digit, blank, dash, decimal mark.
pub open spec fn kind_given(c: char, white_space: bool) -> CharKind {
    if is_digit_char(c) {
        CharKind::Digit
    } else if white_space || is_invisible_blank(c) {
        CharKind::Blank
    } else if is_dash_char(c) {
        CharKind::Dash
    } else if is_decimal_mark(c) {
        CharKind::DecimalMark
    } else {
        CharKind::Other
    }
}

/// The kind of `c`.
pub open spec fn kind_of(c: char) -> CharKind {
    kind_given(c, is_unicode_white_space(c))
}

/// Whether `ch` is one of the dashes.
fn is_dash(ch: char) -> (b: bool)
    ensures
        b == is_dash_char(ch),
{
    ch == '-' || ch == '\u{00AD}' || ch == '\u{2010}' || ch == '\u{2011}' || ch == '\u{2012}'
        || ch == '\u{2013}' || ch == '\u{2014}' || ch == '\u{2015}' || ch == '\u{2212}'
}

/// Classifies `ch`, given whether it has Unicode's `White_Space` property.
pub fn classify_char(ch: char, white_space: bool) -> (k: CharKind)
    ensures
        k == kind_given(ch, white_space),
{
    if '0' <= ch && ch <= '9' {
        CharKind::Digit
    } else if white_space || ch == '\u{200B}' || ch == '\u{FEFF}' || ch == '\u{2060}' {
        CharKind::Blank
    } else if is_dash(ch) {
        CharKind::Dash
    } else if ch == '.' || ch == ',' {
        CharKind::DecimalMark
    } else {
        CharKind::Other
    }
}

/// Classifies `ch`.
pub fn char_kind(ch: char) -> (k: CharKind)
    ensures
        k == kind_of(ch),
{
    classify_char(ch, char_is_whitespace(ch))
}

} // verus!
