//! Reading digits out of a raw cell, and recording what had to be removed.
//!
//! Whitespace and dashes are formatting. One decimal mark with digits on both
//! sides is float debris: `"7318690123456.0"` is a number that went through a
//! spreadsheet. Anything else means the value is not a GTIN: scraping the
//! digits out of `"abc12345678"` would manufacture a GTIN-8 from something
//! that was never an identifier.
use vstd::prelude::*;
use vstd::string::{StrSliceExecFns, StringExecFns};
use crate::chars::{char_kind, is_digit_char, kind_of, CharKind};

verus! {

broadcast use vstd::string::group_string_axioms;

/// What reading the value had to remove. Recorded rather than hidden.
#[derive(Debug, Clone, Copy, PartialEq, Eq, Hash, Default)]
pub struct Cleaning {
    /// Whitespace was removed.
    pub(crate) whitespace: bool,
    /// Dashes were removed.
    pub(crate) separators: bool,
    /// A fractional part was dropped.
    pub(crate) fraction: bool,
}

/// What was removed, as three flags in a fixed order: whitespace removed,
/// dashes removed, fractional part dropped.
pub type Removed = (bool, bool, bool);

impl View for Cleaning {
    type V = Removed;

    /// The three flags.
    closed spec fn view(&self) -> Removed {
        (self.whitespace, self.separators, self.fraction)
    }
}

/// Two records that read the same are the same record.
pub proof fn lemma_view_determines_cleaning(a: Cleaning, b: Cleaning)
    requires
        a@ == b@,
    ensures
        a == b,
{
}

impl Cleaning {
    /// True when the input was already nothing but digits.
    pub fn is_pristine(&self) -> (b: bool)
        ensures
            b == (!self@.0 && !self@.1 && !self@.2),
    {
        !self.whitespace && !self.separators && !self.fraction
    }

    /// Whitespace was removed: spaces, tabs, newlines, non-breaking spaces,
    /// zero-width spaces, or a byte-order mark.
    pub fn removed_whitespace(&self) -> (b: bool)
        ensures
            b == self@.0,
    {
        self.whitespace
    }

    /// Dashes were removed: hyphen-minus, the Unicode hyphens and dashes, or
    /// a soft hyphen.
    pub fn removed_separators(&self) -> (b: bool)
        ensures
            b == self@.1,
    {
        self.separators
    }

    /// A fractional part was dropped: the value arrived as a number. Dropping
    /// it is not deleting the mark: `"7318690123456.0"` is a GTIN-13, while
    /// `"73186901234560"` would be a different GTIN-14.
    pub fn dropped_fraction(&self) -> (b: bool)
        ensures
            b == self@.2,
    {
        self.fraction
    }

    /// What was removed, in words: `"nothing removed"`, or the removals
    /// joined by commas, such as `"whitespace removed, dashes removed"`.
    pub fn summary(&self) -> (s: String)
        ensures
            s@ == cleaning_text(self@),
    {
        if self.is_pristine() {
            return String::from_str("nothing removed");
        }
        let mut out = String::new();
        let mut first = true;
        let ghost mut parts: Seq<Seq<char>> = Seq::empty();
        if self.whitespace {
            append_part(&mut out, first, Ghost(parts), "whitespace removed");
            first = false;
            proof {
                parts = parts.push("whitespace removed"@);
            }
        }
        if self.separators {
            append_part(&mut out, first, Ghost(parts), "dashes removed");
            first = false;
            proof {
                parts = parts.push("dashes removed"@);
            }
        }
        if self.fraction {
            append_part(&mut out, first, Ghost(parts), "fractional part dropped");
            first = false;
            proof {
                parts = parts.push("fractional part dropped"@);
            }
        }
        proof {
            assert(parts =~= cleaning_parts(self@));
        }
        out
    }
}

/// `parts` joined by `", "`.
pub open spec fn join_parts(parts: Seq<Seq<char>>) -> Seq<char>
    decreases parts.len(),
{
    if parts.len() == 0 {
        Seq::empty()
    } else if parts.len() == 1 {
        parts[0]
    } else {
        join_parts(parts.drop_last()) + ", "@ + parts.last()
    }
}

/// One label per kind of thing removed, in a fixed order.
pub open spec fn cleaning_parts(c: Removed) -> Seq<Seq<char>> {
    (if c.0 { seq!["whitespace removed"@] } else { Seq::empty() })
        + (if c.1 { seq!["dashes removed"@] } else { Seq::empty() })
        + (if c.2 { seq!["fractional part dropped"@] } else { Seq::empty() })
}

/// A short account of what reading removed.
pub open spec fn cleaning_text(c: Removed) -> Seq<char> {
    if !c.0 && !c.1 && !c.2 {
        "nothing removed"@
    } else {
        join_parts(cleaning_parts(c))
    }
}

/// Joining one more label adds it after a comma, or alone.
proof fn lemma_join_push(parts: Seq<Seq<char>>, label: Seq<char>)
    ensures
        join_parts(parts.push(label)) == if parts.len() == 0 {
            label
        } else {
            join_parts(parts) + ", "@ + label
        },
{
    assert(parts.push(label).drop_last() =~= parts);
}

/// Appends `label` to the text of `parts`.
fn append_part(out: &mut String, first: bool, parts: Ghost<Seq<Seq<char>>>, label: &str)
    requires
        old(out)@ == join_parts(parts@),
        first == (parts@.len() == 0),
    ensures
        final(out)@ == join_parts(parts@.push(label@)),
{
    proof {
        lemma_join_push(parts@, label@);
    }
    if first {
        proof {
            assert(old(out)@ =~= Seq::<char>::empty());
        }
        out.append(label);
        proof {
            assert(out@ =~= label@);
        }
    } else {
        out.append(", ");
        out.append(label);
    }
}

/// The digits of `s`, in order.
pub open spec fn digits_of(s: Seq<char>) -> Seq<char> {
    s.filter(|c: char| is_digit_char(c))
}

/// `i` is a position of `s` holding a decimal mark.
pub open spec fn is_mark_in(s: Seq<char>, i: int) -> bool {
    0 <= i < s.len() && kind_of(s[i]) == CharKind::DecimalMark
}

/// `s` is a number written with formatting: only digits, blanks, dashes and
/// decimal marks; at most one mark; and a mark has digits on both sides.
pub open spec fn numeric(s: Seq<char>) -> bool {
    &&& forall|i: int| 0 <= i < s.len() ==> kind_of(#[trigger] s[i]) != CharKind::Other
    &&& forall|i: int, j: int| #![trigger is_mark_in(s, i), is_mark_in(s, j)]
        is_mark_in(s, i) && is_mark_in(s, j) ==> i == j
    &&& forall|i: int| #[trigger] is_mark_in(s, i) ==>
        digits_of(s.take(i)).len() > 0 && digits_of(s.skip(i + 1)).len() > 0
}

/// Where the decimal mark of `s` stands, or the length of `s` if it has none.
pub open spec fn mark_index(s: Seq<char>) -> int {
    if exists|i: int| is_mark_in(s, i) {
        choose|i: int| is_mark_in(s, i)
    } else {
        s.len() as int
    }
}

/// The digits before the decimal mark: the integer part of the number.
pub open spec fn integer_digits(s: Seq<char>) -> Seq<char> {
    digits_of(s.take(mark_index(s)))
}

/// What reading `s` removes.
pub open spec fn cleaning_of(s: Seq<char>) -> Removed {
    (
        exists|i: int| 0 <= i < s.len() && kind_of(#[trigger] s[i]) == CharKind::Blank,
        exists|i: int| 0 <= i < s.len() && kind_of(#[trigger] s[i]) == CharKind::Dash,
        exists|i: int| #[trigger] is_mark_in(s, i),
    )
}

/// Digits recovered from a raw cell, plus the record of what was removed.
pub(crate) struct Cleaned {
    /// The first fourteen digits found, as ASCII bytes.
    pub(crate) digits: [u8; 14],
    /// Every digit found, including ones past the fourteenth.
    pub(crate) count: usize,
    pub(crate) cleaning: Cleaning,
}

/// The input held a character that is neither a digit nor formatting.
pub(crate) struct NotNumeric;

/// `digits` holds the first digits of `d`, as ASCII bytes, as far as it can.
pub open spec fn holds_prefix(digits: Seq<u8>, d: Seq<char>) -> bool {
    forall|k: int| 0 <= k < 14 && k < d.len() ==> digits[k] == (#[trigger] d[k]) as u8
}

/// One more character adds itself to the digits read so far if it is a digit.
proof fn lemma_digits_step(s: Seq<char>, i: int)
    requires
        0 <= i < s.len(),
    ensures
        digits_of(s.take(i + 1)) == if is_digit_char(s[i]) {
            digits_of(s.take(i)).push(s[i])
        } else {
            digits_of(s.take(i))
        },
{
    reveal(Seq::filter);
    assert(s.take(i + 1).drop_last() =~= s.take(i));
}

/// Read the digits out of `input`, or refuse. Allocates nothing.
pub(crate) fn clean(input: &str) -> (res: Result<Cleaned, NotNumeric>)
    ensures
        res is Ok <==> numeric(input@),
        res matches Ok(c) ==> {
            &&& c.count == integer_digits(input@).len()
            &&& holds_prefix(c.digits@, integer_digits(input@))
            &&& c.cleaning@ == cleaning_of(input@)
        },
{
    let ghost s = input@;
    let total = input.unicode_len();
    let mut digits: [u8; 14] = [48u8; 14];
    let mut count: usize = 0;
    let mut whitespace = false;
    let mut separators = false;
    let mut in_fraction = false;
    let mut fraction_digits: usize = 0;
    let ghost mut mark: int = 0;

    for ch in it: input.chars()
        invariant
            it.seq() == s,
            s == input@,
            total == s.len(),
            0 <= it.index() <= s.len(),
            forall|k: int| 0 <= k < it.index() ==> kind_of(#[trigger] s[k]) != CharKind::Other,
            !in_fraction ==> forall|k: int| 0 <= k < it.index() ==> !#[trigger] is_mark_in(s, k),
            !in_fraction ==> count == digits_of(s.take(it.index() as int)).len(),
            !in_fraction ==> holds_prefix(digits@, digits_of(s.take(it.index() as int))),
            in_fraction ==> 0 <= mark < it.index(),
            in_fraction ==> is_mark_in(s, mark),
            in_fraction ==> forall|k: int| 0 <= k < it.index() && k != mark ==> !#[trigger] is_mark_in(s, k),
            in_fraction ==> count == digits_of(s.take(mark)).len(),
            in_fraction ==> count > 0,
            in_fraction ==> holds_prefix(digits@, digits_of(s.take(mark))),
            in_fraction ==> fraction_digits == digits_of(s.subrange(mark + 1, it.index() as int)).len(),
            count <= it.index(),
            fraction_digits <= it.index(),
            !in_fraction ==> fraction_digits == 0,
            whitespace == exists|k: int| 0 <= k < it.index() && kind_of(#[trigger] s[k]) == CharKind::Blank,
            separators == exists|k: int| 0 <= k < it.index() && kind_of(#[trigger] s[k]) == CharKind::Dash,
    {
        let ghost i = it.index();
        proof {
            assert(ch == s[i]);
            lemma_digits_step(s, i);
            if in_fraction {
                assert(s.subrange(mark + 1, i + 1) == s.take(i + 1).subrange(mark + 1, i + 1));
                let sub = s.subrange(mark + 1, s.len() as int);
                lemma_digits_step(sub, i - mark - 1);
                assert(sub[i - mark - 1] == s[i]);
                assert(s.subrange(mark + 1, s.len() as int).take(i - mark - 1) =~= s.subrange(mark + 1, i));
                assert(s.subrange(mark + 1, s.len() as int).take(i - mark) =~= s.subrange(mark + 1, i + 1));
                assert(digits_of(s.subrange(mark + 1, i + 1)).len() == digits_of(s.subrange(mark + 1, i)).len()
                    + if is_digit_char(s[i]) { 1int } else { 0int });
            }
        }
        match char_kind(ch) {
            CharKind::Digit => {
                if in_fraction {
                    fraction_digits = fraction_digits + 1;
                } else {
                    if count < 14 {
                        digits[count] = ch as u8;
                    }
                    count = count + 1;
                }
            },
            CharKind::Blank => {
                whitespace = true;
            },
            CharKind::Dash => {
                separators = true;
            },
            CharKind::DecimalMark => {
                if in_fraction || count == 0 {
                    proof {
                        assert(ch == s[i]);
                        assert(is_mark_in(s, i));
                        if in_fraction {
                            assert(is_mark_in(s, mark) && mark != i);
                        } else {
                            assert(digits_of(s.take(i)).len() == 0);
                        }
                        assert(!numeric(s));
                    }
                    return Err(NotNumeric);
                }
                proof {
                    mark = i;
                    reveal(Seq::filter);
                    assert(s.subrange(i + 1, i + 1) =~= Seq::<char>::empty());
                    assert(digits_of(s.subrange(i + 1, i + 1)).len() == 0);
                }
                in_fraction = true;
            },
            CharKind::Other => {
                proof {
                    assert(ch == s[i]);
                    assert(kind_of(s[i]) == CharKind::Other);
                }
                return Err(NotNumeric);
            },
        }
    }

    if in_fraction {
        if fraction_digits == 0 {
            proof {
                assert(s.skip(mark + 1) =~= s.subrange(mark + 1, s.len() as int));
                assert(is_mark_in(s, mark));
            }
            return Err(NotNumeric);
        }
    }
    proof {
        assert(s.take(s.len() as int) =~= s);
        if in_fraction {
            assert(s.skip(mark + 1) =~= s.subrange(mark + 1, s.len() as int));
            assert(mark_index(s) == mark);
        } else {
            assert(!exists|i: int| is_mark_in(s, i));
            assert(mark_index(s) == s.len());
        }
    }
    Ok(Cleaned {
        digits,
        count,
        cleaning: Cleaning { whitespace, separators, fraction: in_fraction },
    })
}

} // verus!
