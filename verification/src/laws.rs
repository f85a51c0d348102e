//! What holds of the library as a whole: the rules that every function
//! shares, stated over the views the functions' own contracts use.
use vstd::prelude::*;
use crate::chars::{is_digit_char, kind_of, CharKind};
use crate::check::{
    digit_value, gs1_check_value, gs1_sum, gs1_sum_shifted, mod10_char, mod10_value, weighted_sum,
};
use crate::allocation::{allocation_13, allocation_8, prefix_value, Allocation, Indicator};
use crate::clean::{cleaning_of, digits_of, integer_digits, is_mark_in, mark_index, numeric};
use crate::heuristics::measure_field_zeroed;
use crate::encoding::encoding_width;
use crate::gtin14::{
    allocation_of, check_digit_valid, encoding_of, indicator_opt, is_canonical, key_of, leading_zeros, pad14,
    shortest_start,
};
use crate::parse::{canonical_of, in_domain, key_for, refusal, stored_form, Reason};

verus! {

/// Every character of `s` is an ASCII digit.
pub open spec fn all_digits(s: Seq<char>) -> bool {
    forall|i: int| 0 <= i < s.len() ==> is_digit_char(#[trigger] s[i])
}

/// The digits of `s` are digits, and no more than `s` has characters.
proof fn lemma_digits_of_is_digits(s: Seq<char>)
    ensures
        all_digits(digits_of(s)),
        digits_of(s).len() <= s.len(),
{
    broadcast use vstd::seq_lib::group_filter_ensures;
    assert forall|i: int| 0 <= i < digits_of(s).len() implies is_digit_char(#[trigger] digits_of(s)[i]) by {
        s.lemma_filter_pred(|c: char| is_digit_char(c), i);
    }
}

/// A sequence of digits is its own digits.
pub(crate) proof fn lemma_digits_of_all_digits(s: Seq<char>)
    requires
        all_digits(s),
    ensures
        digits_of(s) == s,
    decreases s.len(),
{
    reveal(Seq::filter);
    if s.len() > 0 {
        lemma_digits_of_all_digits(s.drop_last());
        assert(digits_of(s.drop_last()).push(s.last()) =~= s);
    }
}

/// A string of ASCII digits is numeric, and its integer part is itself.
proof fn lemma_all_digits_numeric(s: Seq<char>)
    requires
        all_digits(s),
    ensures
        numeric(s),
        integer_digits(s) == s,
{
    assert forall|i: int| 0 <= i < s.len() implies kind_of(#[trigger] s[i]) == CharKind::Digit by {}
    assert forall|i: int| !#[trigger] is_mark_in(s, i) by {
        if 0 <= i < s.len() {
            assert(kind_of(s[i]) == CharKind::Digit);
        }
    }
    assert(mark_index(s) == s.len());
    assert(s.take(s.len() as int) =~= s);
    lemma_digits_of_all_digits(s);
}

/// The first `leading_zeros(c)` characters of `c` are zeros, and the next
/// one, if any, is not.
proof fn lemma_leading_zeros(c: Seq<char>)
    ensures
        0 <= leading_zeros(c) <= c.len(),
        forall|j: int| 0 <= j < leading_zeros(c) ==> c[j] == '0',
        leading_zeros(c) < c.len() ==> c[leading_zeros(c)] != '0',
    decreases c.len(),
{
    if c.len() > 0 && c[0] == '0' {
        lemma_leading_zeros(c.drop_first());
        assert forall|j: int| 0 <= j < leading_zeros(c) implies c[j] == '0' by {
            if j > 0 {
                assert(c[j] == c.drop_first()[j - 1]);
            }
        }
    }
}

/// The canonical form of a value in the domain is fourteen ASCII digits,
/// ending in the value's own digits.
pub proof fn law_canonical_form(s: Seq<char>)
    requires
        in_domain(s),
    ensures
        is_canonical(canonical_of(s)),
        canonical_of(s).skip(14 - integer_digits(s).len()) == integer_digits(s),
        forall|i: int| 0 <= i < 14 - integer_digits(s).len() ==> canonical_of(s)[i] == '0',
{
    let d = integer_digits(s);
    lemma_digits_of_is_digits(s.take(mark_index(s)));
    assert(canonical_of(s).skip(14 - d.len()) =~= d);
}

/// The domain rule, stated independently of the implementation: a string of
/// ASCII digits is a GTIN precisely when it has 8 to 14 of them, and has a
/// key precisely then.
pub proof fn law_domain_is_eight_to_fourteen_digits(s: Seq<char>)
    requires
        all_digits(s),
    ensures
        in_domain(s) <==> 8 <= s.len() <= 14,
        key_for(s) is Some <==> 8 <= s.len() <= 14,
{
    lemma_all_digits_numeric(s);
}

/// Inside the domain, storing is exactly zero-padding to fourteen.
pub proof fn law_in_domain_storage_is_pad_only(s: Seq<char>)
    requires
        all_digits(s),
        8 <= s.len() <= 14,
    ensures
        stored_form(s) == pad14(s),
        stored_form(s).len() == 14,
        stored_form(s).skip(14 - s.len()) == s,
{
    lemma_all_digits_numeric(s);
    assert(pad14(s).skip(14 - s.len()) =~= s);
}

/// The two refusals agree on whether to refuse and differ only in how: a key
/// exists exactly inside the domain; outside it storage hands back the input
/// untouched, inside it storage is fourteen characters.
pub proof fn law_refusals_agree_on_the_domain(s: Seq<char>)
    ensures
        key_for(s) is Some <==> in_domain(s),
        !in_domain(s) ==> stored_form(s) == s,
        in_domain(s) ==> stored_form(s).len() == 14,
        in_domain(s) <==> refusal(s) is None,
{
    if in_domain(s) {
        law_canonical_form(s);
    }
}

/// Never silently blank: a non-empty input never stores as empty.
pub proof fn law_store_form_never_blanks(s: Seq<char>)
    requires
        s.len() > 0,
    ensures
        stored_form(s).len() > 0,
{
    law_refusals_agree_on_the_domain(s);
}

/// A canonical form reads back as itself, needing no cleaning.
pub proof fn law_canonical_reads_as_itself(c: Seq<char>)
    requires
        is_canonical(c),
    ensures
        in_domain(c),
        canonical_of(c) == c,
{
    assert(all_digits(c));
    lemma_all_digits_numeric(c);
    assert(pad14(c) =~= c);
}

/// Storing is idempotent: canonicalising a canonical value changes nothing,
/// so a value cannot drift by being written twice.
pub proof fn law_store_form_is_idempotent(s: Seq<char>)
    ensures
        stored_form(stored_form(s)) == stored_form(s),
{
    if in_domain(s) {
        law_canonical_form(s);
        law_canonical_reads_as_itself(canonical_of(s));
    }
}

/// Over-length is a classification, never a truncation: a number with more
/// than fourteen digits is reported with its length, stored untouched, and
/// has no key.
pub proof fn law_over_length_is_never_truncated(s: Seq<char>)
    requires
        numeric(s),
        integer_digits(s).len() > 14,
    ensures
        refusal(s) == Some(Reason::TooLong { digits: integer_digits(s).len() as usize }),
        stored_form(s) == s,
        key_for(s) is None,
{
}

/// Digits are never scraped out of junk: one character that is neither a
/// digit nor formatting makes the whole value non-numeric.
pub proof fn law_junk_is_not_scraped(s: Seq<char>, i: int)
    requires
        0 <= i < s.len(),
        kind_of(s[i]) == CharKind::Other,
    ensures
        refusal(s) == Some(Reason::NonNumeric),
        stored_form(s) == s,
{
}

/// Missing is not junk: a cell of nothing but whitespace and dashes, or
/// nothing at all, is empty.
pub proof fn law_blank_cell_is_empty(s: Seq<char>)
    requires
        forall|i: int| 0 <= i < s.len()
            ==> kind_of(#[trigger] s[i]) == CharKind::Blank || kind_of(s[i]) == CharKind::Dash,
    ensures
        refusal(s) == Some(Reason::Empty),
{
    assert forall|i: int| !#[trigger] is_mark_in(s, i) by {
        if 0 <= i < s.len() {
            assert(kind_of(s[i]) == CharKind::Blank || kind_of(s[i]) == CharKind::Dash);
        }
    }
    assert(mark_index(s) == s.len());
    assert(s.take(s.len() as int) =~= s);
    lemma_digits_of_is_digits(s);
    if digits_of(s).len() > 0 {
        broadcast use vstd::seq_lib::group_filter_ensures;
        let c = digits_of(s)[0];
        assert(digits_of(s).contains(c));
        s.lemma_filter_contains_rev(|c: char| is_digit_char(c), c);
    }
}

/// The shortest form is a standard width, and the width its encoding
/// claims: 8, 12, 13 or 14.
pub proof fn law_shortest_is_a_standard_width(c: Seq<char>)
    requires
        is_canonical(c),
    ensures
        c.skip(shortest_start(c)).len() == encoding_width(encoding_of(c)),
        c.skip(shortest_start(c)).len() == 8 || c.skip(shortest_start(c)).len() == 12
            || c.skip(shortest_start(c)).len() == 13 || c.skip(shortest_start(c)).len() == 14,
{
    lemma_leading_zeros(c);
}

/// The shortest form round-trips: reading it back gives the same canonical
/// value. This is what makes shrinking safe to export.
pub proof fn law_shortest_round_trips(c: Seq<char>)
    requires
        is_canonical(c),
    ensures
        in_domain(c.skip(shortest_start(c))),
        canonical_of(c.skip(shortest_start(c))) == c,
{
    lemma_leading_zeros(c);
    let short = c.skip(shortest_start(c));
    assert(all_digits(short));
    lemma_all_digits_numeric(short);
    assert(pad14(short) =~= c);
}

/// A recomputed check digit always validates, and leaves the key alone.
pub proof fn law_recomputed_check_digit_validates(c: Seq<char>)
    requires
        is_canonical(c),
    ensures
        check_digit_valid(c.update(13, mod10_char(c.take(13)))),
        key_of(c.update(13, mod10_char(c.take(13)))) == key_of(c),
{
    let r = c.update(13, mod10_char(c.take(13)));
    assert(r.take(13) =~= c.take(13));
    assert(key_of(r) =~= key_of(c));
}

/// Two values share a key exactly when their first thirteen canonical digits
/// agree: no more, no less. The key is a function of those digits alone.
pub proof fn law_key_ignores_only_the_check_digit(a: Seq<char>, b: Seq<char>)
    requires
        is_canonical(a),
        is_canonical(b),
    ensures
        key_of(a) == key_of(b) <==> a.take(13) == b.take(13),
{
    if key_of(a) == key_of(b) {
        assert forall|i: int| 0 <= i < 13 implies a.take(13)[i] == b.take(13)[i] by {
            assert(key_of(a)[i] == key_of(b)[i]);
        }
        assert(a.take(13) =~= b.take(13));
    }
    if a.take(13) == b.take(13) {
        assert forall|i: int| 0 <= i < 13 implies a[i] == b[i] by {
            assert(a.take(13)[i] == b.take(13)[i]);
        }
        assert(key_of(a) =~= key_of(b));
    }
}

/// Every key is fourteen digits ending in `'0'`, and its first thirteen are
/// the value's own.
pub proof fn law_key_shape(c: Seq<char>)
    requires
        is_canonical(c),
    ensures
        key_of(c).len() == 14,
        key_of(c)[13] == '0',
        key_of(c).take(13) == c.take(13),
        all_digits(key_of(c)),
{
    assert(key_of(c).take(13) =~= c.take(13));
}

/// Two valid GTINs never collide on a key: the check digit is a function of
/// the first thirteen digits, so every collision needs a member whose check
/// digit is invalid, which is the population the key exists for.
pub proof fn law_valid_gtins_never_share_a_key(a: Seq<char>, b: Seq<char>)
    requires
        is_canonical(a),
        is_canonical(b),
        check_digit_valid(a),
        check_digit_valid(b),
        key_of(a) == key_of(b),
    ensures
        a == b,
{
    law_key_ignores_only_the_check_digit(a, b);
    assert forall|i: int| 0 <= i < 14 implies a[i] == b[i] by {
        if i < 13 {
            assert(a.take(13)[i] == b.take(13)[i]);
        }
    }
    assert(a =~= b);
}

/// The check digit is valid exactly when the digit carried is the digit
/// expected.
pub proof fn law_check_digit_validity(c: Seq<char>)
    requires
        is_canonical(c),
    ensures
        0 <= mod10_value(c.take(13)) <= 9,
        0 <= digit_value(c[13]) <= 9,
        check_digit_valid(c) <==> digit_value(c[13]) == mod10_value(c.take(13)),
{
}

/// The left-to-right weighted sum is GS1's right-to-left one.
proof fn lemma_weighted_sum_is_gs1_sum(b: Seq<char>)
    ensures
        b.len() % 2 == 1 ==> weighted_sum(b) == gs1_sum(b),
        b.len() % 2 == 0 ==> weighted_sum(b) == gs1_sum_shifted(b),
    decreases b.len(),
{
    if b.len() > 0 {
        lemma_weighted_sum_is_gs1_sum(b.drop_last());
    }
}

/// A zero in front changes neither sum.
proof fn lemma_leading_zero_weighs_nothing(b: Seq<char>)
    ensures
        gs1_sum(seq!['0'] + b) == gs1_sum(b),
        gs1_sum_shifted(seq!['0'] + b) == gs1_sum_shifted(b),
    decreases b.len(),
{
    let z = seq!['0'] + b;
    if b.len() == 0 {
        assert(z.drop_last() =~= Seq::<char>::empty());
    } else {
        lemma_leading_zero_weighs_nothing(b.drop_last());
        assert(z.drop_last() =~= seq!['0'] + b.drop_last());
        assert(z.last() == b.last());
    }
}

/// Leading zeros contribute nothing to the check digit: the Mod-10 digit
/// computed over the padded thirteen-digit body is the GS1 check digit of the
/// body with any number of its leading zeros dropped. So computing it over a
/// zero-padded GTIN-14 gives the same answer as over the GTIN-8, -12 or -13
/// that padded to it.
pub proof fn law_padding_leaves_the_check_digit_alone(c: Seq<char>, k: int)
    requires
        is_canonical(c),
        0 <= k <= 13,
        forall|j: int| 0 <= j < k ==> c[j] == '0',
    ensures
        mod10_value(c.take(13)) == gs1_check_value(c.take(13).skip(k)),
{
    let body = c.take(13);
    lemma_weighted_sum_is_gs1_sum(body);
    lemma_zero_run_weighs_nothing(body, 0, k);
    assert(body.skip(0) =~= body);
}

/// A run of zeros in front weighs nothing.
proof fn lemma_zero_run_weighs_nothing(b: Seq<char>, i: int, k: int)
    requires
        0 <= i <= k <= b.len(),
        forall|j: int| i <= j < k ==> b[j] == '0',
    ensures
        gs1_sum(b.skip(i)) == gs1_sum(b.skip(k)),
    decreases k - i,
{
    if i < k {
        lemma_zero_run_weighs_nothing(b, i + 1, k);
        assert(b.skip(i) =~= seq!['0'] + b.skip(i + 1));
        lemma_leading_zero_weighs_nothing(b.skip(i + 1));
    }
}


/// The shortest form is the narrowest standard width the value fits: every
/// digit it drops is a zero, and every narrower standard width would have to
/// drop a digit that is not. Its encoding names that width. So a UPC-A with
/// twelve significant digits shortens to twelve, never to thirteen.
pub proof fn law_shortest_is_the_narrowest_standard_width(c: Seq<char>)
    requires
        is_canonical(c),
    ensures
        ({
            let w = c.skip(shortest_start(c)).len() as int;
            &&& w == 8 || w == 12 || w == 13 || w == 14
            &&& encoding_width(encoding_of(c)) == w
            &&& forall|j: int| 0 <= j < 14 - w ==> c[j] == '0'
            &&& w > 8 ==> exists|j: int| 0 <= j < 6 && c[j] != '0'
            &&& w > 12 ==> exists|j: int| 0 <= j < 2 && c[j] != '0'
            &&& w > 13 ==> c[0] != '0'
        }),
{
    lemma_leading_zeros(c);
    let l = leading_zeros(c);
    if l < 14 {
        assert(c[l] != '0');
    }
}

/// The indicator is the leading digit of a value with fourteen significant
/// digits: `9` is variable measure, `1` to `8` are groupings of that number,
/// and a leading `0` is padding, not an indicator.
pub proof fn law_indicator_is_the_leading_digit(c: Seq<char>)
    requires
        is_canonical(c),
    ensures
        c[0] == '0' ==> indicator_opt(c) is None,
        c[0] == '9' ==> indicator_opt(c) == Some(Indicator::VariableMeasure),
        '1' <= c[0] <= '8' ==> indicator_opt(c) == Some(Indicator::Grouping((c[0] as int - 48) as u8)),
{
    lemma_leading_zeros(c);
    if c[0] == '0' {
        assert(leading_zeros(c) >= 1);
    } else {
        assert(leading_zeros(c) == 0);
    }
}

/// The measure field is the last five digits, check digit included, and
/// nothing before them: the digit at position 8 plays no part.
pub proof fn law_measure_field_is_the_last_five_digits(c: Seq<char>)
    requires
        is_canonical(c),
    ensures
        measure_field_zeroed(c) <==> (c[9] == '0' && c[10] == '0' && c[11] == '0' && c[12] == '0'
            && c[13] == '0'),
{
    if c[9] == '0' && c[10] == '0' && c[11] == '0' && c[12] == '0' && c[13] == '0' {
        assert forall|i: int| 9 <= i < 14 implies c[i] == '0' by {
            if i == 9 {
            } else if i == 10 {
            } else if i == 11 {
            } else if i == 12 {
            } else {
            }
        }
    }
}

/// Float debris is dropped, not deleted: a GTIN written as a number with a
/// decimal mark and any non-empty fraction reads as the GTIN its integer part
/// spells, with only the fraction flag raised. So `"7318690123456.00"` is the
/// GTIN-13 `7318690123456`.
pub proof fn law_float_debris_is_dropped(d: Seq<char>, m: char, f: Seq<char>)
    requires
        all_digits(d),
        8 <= d.len() <= 14,
        m == '.' || m == ',',
        all_digits(f),
        f.len() > 0,
    ensures
        in_domain(d + seq![m] + f),
        canonical_of(d + seq![m] + f) == pad14(d),
        cleaning_of(d + seq![m] + f) == (false, false, true),
        stored_form(d + seq![m] + f) == pad14(d),
        key_for(d + seq![m] + f) == Some(key_of(pad14(d))),
{
    let s = d + seq![m] + f;
    let n = d.len() as int;
    assert forall|i: int| 0 <= i < s.len() implies kind_of(#[trigger] s[i]) == (if i == n {
        CharKind::DecimalMark
    } else {
        CharKind::Digit
    }) by {
        if i < n {
            assert(s[i] == d[i]);
        } else if i > n {
            assert(s[i] == f[i - n - 1]);
        }
    }
    assert forall|i: int| #[trigger] is_mark_in(s, i) <==> i == n by {
        if 0 <= i < s.len() {
            assert(kind_of(s[i]) == (if i == n { CharKind::DecimalMark } else { CharKind::Digit }));
        }
    }
    assert(s.take(n) =~= d);
    assert(s.skip(n + 1) =~= f);
    lemma_digits_of_all_digits(d);
    lemma_digits_of_all_digits(f);
    assert(is_mark_in(s, n));
    assert(mark_index(s) == n);
    assert(integer_digits(s) == d);
    assert forall|i: int| 0 <= i < s.len() implies kind_of(#[trigger] s[i]) != CharKind::Other by {
        assert(kind_of(s[i]) == (if i == n { CharKind::DecimalMark } else { CharKind::Digit }));
    }
    assert(numeric(s));
    assert(!exists|i: int| 0 <= i < s.len() && kind_of(#[trigger] s[i]) == CharKind::Blank) by {
        assert forall|i: int| 0 <= i < s.len() implies kind_of(#[trigger] s[i]) != CharKind::Blank by {
            assert(kind_of(s[i]) == (if i == n { CharKind::DecimalMark } else { CharKind::Digit }));
        }
    }
    assert(!exists|i: int| 0 <= i < s.len() && kind_of(#[trigger] s[i]) == CharKind::Dash) by {
        assert forall|i: int| 0 <= i < s.len() implies kind_of(#[trigger] s[i]) != CharKind::Dash by {
            assert(kind_of(s[i]) == (if i == n { CharKind::DecimalMark } else { CharKind::Digit }));
        }
    }
}

/// The number that the two digits of `c` from position `i` write.
pub open spec fn two_digits(c: Seq<char>, i: int) -> int {
    10 * digit_value(c[i]) + digit_value(c[i + 1])
}

/// The number that the three digits of `c` from position `i` write.
pub open spec fn three_digits(c: Seq<char>, i: int) -> int {
    100 * digit_value(c[i]) + 10 * digit_value(c[i + 1]) + digit_value(c[i + 2])
}

/// The number the first `k` digits of `b` write is zero exactly when they are
/// all zeros.
proof fn lemma_prefix_value_zero(b: Seq<char>, k: int)
    requires
        0 <= k <= b.len(),
        forall|j: int| 0 <= j < k ==> '0' <= #[trigger] b[j] <= '9',
    ensures
        prefix_value(b, k) >= 0,
        prefix_value(b, k) == 0 <==> forall|j: int| 0 <= j < k ==> b[j] == '0',
    decreases k,
{
    if k > 0 {
        lemma_prefix_value_zero(b, k - 1);
        if prefix_value(b, k) == 0 {
            assert forall|j: int| 0 <= j < k implies b[j] == '0' by {
                assert(b[k - 1] == '0');
            }
        }
    }
}

/// The first three prefix numbers of a body are its leading digits read as a
/// number.
proof fn lemma_small_prefixes(b: Seq<char>)
    requires
        b.len() >= 3,
    ensures
        prefix_value(b, 2) == 10 * digit_value(b[0]) + digit_value(b[1]),
        prefix_value(b, 3) == 100 * digit_value(b[0]) + 10 * digit_value(b[1]) + digit_value(b[2]),
{
    reveal_with_fuel(prefix_value, 4);
}

/// A value with a non-zero digit among its first six is wider than a GTIN-8,
/// so the general table applies; one with six leading zeros is a GTIN-8.
proof fn lemma_table_choice(c: Seq<char>)
    requires
        is_canonical(c),
    ensures
        (exists|j: int| 0 <= j < 6 && c[j] != '0') ==> allocation_of(c) == allocation_13(c.skip(1)),
        (forall|j: int| 0 <= j < 6 ==> c[j] == '0') ==> allocation_of(c) == allocation_8(c.skip(6)),
{
    lemma_leading_zeros(c);
    let l = leading_zeros(c);
    if exists|j: int| 0 <= j < 6 && c[j] != '0' {
        let j = choose|j: int| 0 <= j < 6 && c[j] != '0';
        assert(l <= j);
    }
    if forall|j: int| 0 <= j < 6 ==> c[j] == '0' {
        if l < 6 {
            assert(c[l] == '0');
        }
    }
}

/// Figure 1.4.2-1 for a 13-digit body that does not start with `0`, one
/// clause per row, read straight off the digits: `10`–`19` company prefixes,
/// `20`–`29` restricted to a region (and only those), `300`–`950` and
/// `953`–`976` company prefixes, `951` EPC, `952` demonstration, `977` ISSN,
/// `978` and `979` ISBN but `9790` ISMN, `980` refund receipts, `981`–`983`
/// and `99` coupons, `984`–`989` reserved for coupons.
pub proof fn law_general_prefix_table(c: Seq<char>)
    requires
        is_canonical(c),
        c[1] != '0',
    ensures
        10 <= two_digits(c, 1) <= 19 ==> allocation_of(c) == Allocation::CompanyPrefix,
        20 <= two_digits(c, 1) <= 29 <==> allocation_of(c) == Allocation::RestrictedCirculationRegion,
        300 <= three_digits(c, 1) <= 950 ==> allocation_of(c) == Allocation::CompanyPrefix,
        three_digits(c, 1) == 951 ==> allocation_of(c) == Allocation::EpcGeneralManager,
        three_digits(c, 1) == 952 ==> allocation_of(c) == Allocation::Demonstration,
        953 <= three_digits(c, 1) <= 976 ==> allocation_of(c) == Allocation::CompanyPrefix,
        three_digits(c, 1) == 977 ==> allocation_of(c) == Allocation::Issn,
        three_digits(c, 1) == 978 ==> allocation_of(c) == Allocation::Isbn,
        three_digits(c, 1) == 979 && c[4] == '0' ==> allocation_of(c) == Allocation::Ismn,
        three_digits(c, 1) == 979 && c[4] != '0' ==> allocation_of(c) == Allocation::Isbn,
        three_digits(c, 1) == 980 ==> allocation_of(c) == Allocation::RefundReceipt,
        981 <= three_digits(c, 1) <= 983 ==> allocation_of(c) == Allocation::Coupon,
        984 <= three_digits(c, 1) <= 989 ==> allocation_of(c) == Allocation::ReservedCoupon,
        two_digits(c, 1) == 99 ==> allocation_of(c) == Allocation::Coupon,
{
    lemma_table_choice(c);
    let b = c.skip(1);
    assert(b[0] == c[1] && b[1] == c[2] && b[2] == c[3] && b[3] == c[4]);
    lemma_small_prefixes(b);
}

/// Figure 1.4.2-1 for a 13-digit body that starts with `0`, in a value wider
/// than a GTIN-8: `0000000` restricted to a company, `0000001`–`0000099`
/// unused, `00001`–`00009`, `0001`–`0009` and `001`–`019` U.P.C. company
/// prefixes, `02` restricted to a region, `03` U.P.C., `04` restricted to a
/// company, `05` reserved by GS1 US, `06`–`09` U.P.C.
pub proof fn law_upc_prefix_table(c: Seq<char>)
    requires
        is_canonical(c),
        c[1] == '0',
        exists|j: int| 0 <= j < 6 && c[j] != '0',
    ensures
        (forall|j: int| 1 <= j < 8 ==> c[j] == '0') ==> allocation_of(c)
            == Allocation::RestrictedCirculationCompany,
        (forall|j: int| 1 <= j < 6 ==> c[j] == '0') && !(forall|j: int| 1 <= j < 8 ==> c[j] == '0')
            ==> allocation_of(c) == Allocation::UnusedForGtin8,
        !(forall|j: int| 1 <= j < 6 ==> c[j] == '0') && (c[2] == '0' || c[2] == '1')
            ==> allocation_of(c) == Allocation::UpcCompanyPrefix,
        c[2] == '2' ==> allocation_of(c) == Allocation::RestrictedCirculationRegion,
        c[2] == '3' ==> allocation_of(c) == Allocation::UpcCompanyPrefix,
        c[2] == '4' ==> allocation_of(c) == Allocation::RestrictedCirculationCompany,
        c[2] == '5' ==> allocation_of(c) == Allocation::ReservedGs1Us,
        '6' <= c[2] <= '9' ==> allocation_of(c) == Allocation::UpcCompanyPrefix,
{
    lemma_table_choice(c);
    let b = c.skip(1);
    assert forall|j: int| 0 <= j < 13 implies #[trigger] b[j] == c[j + 1] && '0' <= b[j] <= '9' by {}
    lemma_small_prefixes(b);
    lemma_prefix_value_zero(b, 5);
    lemma_prefix_value_zero(b, 7);
    if forall|j: int| 1 <= j < 8 ==> c[j] == '0' {
        assert forall|j: int| 0 <= j < 7 implies b[j] == '0' by {
            assert(c[j + 1] == '0');
        }
    }
    if forall|j: int| 1 <= j < 6 ==> c[j] == '0' {
        assert forall|j: int| 0 <= j < 5 implies b[j] == '0' by {
            assert(c[j + 1] == '0');
        }
        if !(forall|j: int| 1 <= j < 8 ==> c[j] == '0') {
            let j = choose|j: int| !(1 <= j < 8 ==> c[j] == '0');
            assert(b[j - 1] != '0');
        }
    } else {
        let j = choose|j: int| !(1 <= j < 6 ==> c[j] == '0');
        assert(b[j - 1] != '0');
    }
}

/// Figure 1.4.3-1 for a GTIN-8, read off its first three digits: `000`–`099`
/// and `200`–`299` restricted to a company, `100`–`199`, `300`–`951` and
/// `953`–`976` issue GTIN-8s, `952` demonstration, `977`–`999` reserved.
pub proof fn law_gtin8_prefix_table(c: Seq<char>)
    requires
        is_canonical(c),
        forall|j: int| 0 <= j < 6 ==> c[j] == '0',
    ensures
        three_digits(c, 6) <= 99 ==> allocation_of(c) == Allocation::RestrictedCirculationCompany,
        100 <= three_digits(c, 6) <= 199 ==> allocation_of(c) == Allocation::Gtin8Issuance,
        200 <= three_digits(c, 6) <= 299 ==> allocation_of(c) == Allocation::RestrictedCirculationCompany,
        300 <= three_digits(c, 6) <= 951 ==> allocation_of(c) == Allocation::Gtin8Issuance,
        three_digits(c, 6) == 952 ==> allocation_of(c) == Allocation::Demonstration,
        953 <= three_digits(c, 6) <= 976 ==> allocation_of(c) == Allocation::Gtin8Issuance,
        977 <= three_digits(c, 6) ==> allocation_of(c) == Allocation::ReservedFutureUse,
{
    lemma_table_choice(c);
    let e = c.skip(6);
    assert(e[0] == c[6] && e[1] == c[7] && e[2] == c[8]);
    reveal_with_fuel(prefix_value, 4);
}

/// A plain number outside the domain is refused by its length, with the
/// count of digits it has: none is an empty cell, one to seven is too short,
/// fifteen or more is too long.
pub proof fn law_plain_numbers_are_refused_by_length(s: Seq<char>)
    requires
        all_digits(s),
    ensures
        s.len() == 0 ==> refusal(s) == Some(Reason::Empty),
        1 <= s.len() <= 7 ==> refusal(s) == Some(Reason::TooShort { digits: s.len() as usize }),
        s.len() > 14 ==> refusal(s) == Some(Reason::TooLong { digits: s.len() as usize }),
{
    lemma_all_digits_numeric(s);
}

} // verus!
