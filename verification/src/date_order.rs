//! The order of dates and of their texts.

use vstd::prelude::*;
use crate::dates::{
    civil_from_days, days_from_civil, days_in_month, epoch_day_text, iso_date,
    lemma_listed_date_counts_back,
};
use crate::text::{digit_char, digits, zero_pad};

verus! {

/// `(y1, m1, d1)` comes before `(y2, m2, d2)` in the calendar.
pub open spec fn date_before(a: (int, int, int), b: (int, int, int)) -> bool {
    ||| a.0 < b.0
    ||| a.0 == b.0 && a.1 < b.1
    ||| a.0 == b.0 && a.1 == b.1 && a.2 < b.2
}

#[verifier::rlimit(50)]
proof fn lemma_month_step(y: int, m: int)
    requires
        1 <= m < 12,
    ensures
        days_from_civil(y, m + 1, 1) == days_from_civil(y, m, 1) + days_in_month(y, m),
{
    if m == 2 {
        let y0 = y - 1;
        let era0 = y0 / 400;
        let yoe0 = y0 - era0 * 400;
        let era = y / 400;
        let yoe = y - era * 400;
        assert(0 <= yoe0 < 400 && 0 <= yoe < 400);
        if yoe == 0 {
            assert(era == era0 + 1 && yoe0 == 399);
        } else {
            assert(era == era0 && yoe == yoe0 + 1);
        }
    }
}

proof fn lemma_year_step(y: int)
    ensures
        days_from_civil(y + 1, 1, 1) == days_from_civil(y, 12, 1) + 31,
{
}

proof fn lemma_months_ordered(y: int, m1: int, m2: int)
    requires
        1 <= m1 < m2 <= 12,
    ensures
        days_from_civil(y, m1, 1) + days_in_month(y, m1) <= days_from_civil(y, m2, 1),
    decreases m2 - m1,
{
    lemma_month_step(y, m1);
    if m1 + 1 < m2 {
        lemma_months_ordered(y, m1 + 1, m2);
    }
}

proof fn lemma_years_ordered(y1: int, y2: int)
    requires
        y1 < y2,
    ensures
        days_from_civil(y1, 12, 1) + 31 <= days_from_civil(y2, 1, 1),
    decreases y2 - y1,
{
    lemma_year_step(y1);
    if y1 + 1 < y2 {
        lemma_years_ordered(y1 + 1, y2);
        lemma_months_ordered(y1 + 1, 1, 12);
    }
}

/// A calendar date.
pub open spec fn is_calendar_date(a: (int, int, int)) -> bool {
    1 <= a.1 <= 12 && 1 <= a.2 <= days_in_month(a.0, a.1)
}

/// Counting days keeps the order of the calendar.
pub proof fn lemma_day_count_keeps_order(a: (int, int, int), b: (int, int, int))
    requires
        is_calendar_date(a),
        is_calendar_date(b),
        date_before(a, b),
    ensures
        days_from_civil(a.0, a.1, a.2) < days_from_civil(b.0, b.1, b.2),
{
    if a.0 < b.0 {
        if a.1 < 12 {
            lemma_months_ordered(a.0, a.1, 12);
        }
        lemma_years_ordered(a.0, b.0);
        if 1 < b.1 {
            lemma_months_ordered(b.0, 1, b.1);
        }
    } else if a.1 < b.1 {
        lemma_months_ordered(a.0, a.1, b.1);
    }
}

/// `a` comes before `b` in the dictionary order of their characters, the
/// order in which `String`s compare.
pub open spec fn text_before(a: Seq<char>, b: Seq<char>) -> bool
    decreases a.len(),
{
    if a.len() == 0 {
        b.len() > 0
    } else if b.len() == 0 {
        false
    } else if a[0] != b[0] {
        (a[0] as int) < (b[0] as int)
    } else {
        text_before(a.drop_first(), b.drop_first())
    }
}

/// The ten characters of a date in years 0 to 9999.
pub open spec fn iso_chars(y: int, m: int, d: int) -> Seq<char> {
    seq![
        digit_char(y / 1000),
        digit_char(y / 100 % 10),
        digit_char(y / 10 % 10),
        digit_char(y % 10),
        '-',
        digit_char(m / 10),
        digit_char(m % 10),
        '-',
        digit_char(d / 10),
        digit_char(d % 10),
    ]
}

proof fn lemma_digit_char(d: int)
    requires
        0 <= d < 10,
    ensures
        digit_char(d) as int == 48 + d,
{
}

proof fn lemma_iso_chars(y: int, m: int, d: int)
    requires
        0 <= y <= 9999,
        1 <= m <= 12,
        1 <= d <= 31,
    ensures
        iso_date(y, m, d) =~= iso_chars(y, m, d),
{
    reveal_with_fuel(digits, 4);
    assert(zero_pad(digits(y as nat), 4) =~= seq![
        digit_char(y / 1000),
        digit_char(y / 100 % 10),
        digit_char(y / 10 % 10),
        digit_char(y % 10),
    ]);
    assert(zero_pad(digits(m as nat), 2) =~= seq![digit_char(m / 10), digit_char(m % 10)]);
    assert(zero_pad(digits(d as nat), 2) =~= seq![digit_char(d / 10), digit_char(d % 10)]);
}

proof fn lemma_text_before_concat(p1: Seq<char>, q1: Seq<char>, p2: Seq<char>, q2: Seq<char>)
    requires
        p1.len() == p2.len(),
    ensures
        text_before(p1 + q1, p2 + q2) == if p1 == p2 {
            text_before(q1, q2)
        } else {
            text_before(p1, p2)
        },
    decreases p1.len(),
{
    if p1.len() == 0 {
        assert(p1 + q1 =~= q1);
        assert(p2 + q2 =~= q2);
        assert(p1 =~= p2);
    } else {
        assert((p1 + q1).drop_first() =~= p1.drop_first() + q1);
        assert((p2 + q2).drop_first() =~= p2.drop_first() + q2);
        assert((p1 + q1)[0] == p1[0]);
        assert((p2 + q2)[0] == p2[0]);
        lemma_text_before_concat(p1.drop_first(), q1, p2.drop_first(), q2);
        if p1[0] == p2[0] {
            if p1.drop_first() =~= p2.drop_first() {
                assert(p1 =~= p2) by {
                    assert forall|i: int| 0 <= i < p1.len() implies p1[i] == p2[i] by {
                        if i > 0 {
                            assert(p1[i] == p1.drop_first()[i - 1]);
                            assert(p2[i] == p2.drop_first()[i - 1]);
                        }
                    }
                }
            } else {
                assert(p1 != p2);
            }
        } else {
            assert(p1 != p2);
        }
    }
}

/// The four digits of a year from 0 to 9999.
pub open spec fn year_chars(y: int) -> Seq<char> {
    seq![
        digit_char(y / 1000),
        digit_char(y / 100 % 10),
        digit_char(y / 10 % 10),
        digit_char(y % 10),
    ]
}

/// The two digits of a number from 0 to 99.
pub open spec fn two_chars(n: int) -> Seq<char> {
    seq![digit_char(n / 10), digit_char(n % 10)]
}

proof fn lemma_concat_eq(p1: Seq<char>, q1: Seq<char>, p2: Seq<char>, q2: Seq<char>)
    requires
        p1.len() == p2.len(),
    ensures
        (p1 + q1 == p2 + q2) == (p1 == p2 && q1 == q2),
{
    if p1 + q1 == p2 + q2 {
        assert(p1 =~= (p1 + q1).subrange(0, p1.len() as int));
        assert(p2 =~= (p2 + q2).subrange(0, p2.len() as int));
        assert(q1 =~= (p1 + q1).subrange(p1.len() as int, (p1 + q1).len() as int));
        assert(q2 =~= (p2 + q2).subrange(p2.len() as int, (p2 + q2).len() as int));
    }
}

proof fn lemma_year_split(y: int)
    requires
        0 <= y <= 9999,
    ensures
        year_chars(y) =~= two_chars(y / 100) + two_chars(y % 100),
{
    assert(y / 100 / 10 == y / 1000) by (nonlinear_arith)
        requires
            0 <= y <= 9999,
    ;
    assert(y % 100 / 10 == y / 10 % 10) by (nonlinear_arith)
        requires
            0 <= y <= 9999,
    ;
    assert(y % 100 % 10 == y % 10) by (nonlinear_arith)
        requires
            0 <= y <= 9999,
    ;
}

proof fn lemma_year_chars_compare(y1: int, y2: int)
    requires
        0 <= y1 <= 9999,
        0 <= y2 <= 9999,
    ensures
        text_before(year_chars(y1), year_chars(y2)) == (y1 < y2),
        (year_chars(y1) == year_chars(y2)) == (y1 == y2),
{
    lemma_year_split(y1);
    lemma_year_split(y2);
    assert(y1 < y2 <==> (y1 / 100 < y2 / 100 || (y1 / 100 == y2 / 100 && y1 % 100 < y2 % 100)));
    assert(y1 == y2 <==> (y1 / 100 == y2 / 100 && y1 % 100 == y2 % 100));
    lemma_two_chars_compare(y1 / 100, y2 / 100);
    lemma_two_chars_compare(y1 % 100, y2 % 100);
    lemma_text_before_concat(two_chars(y1 / 100), two_chars(y1 % 100), two_chars(y2 / 100), two_chars(y2 % 100));
    lemma_concat_eq(two_chars(y1 / 100), two_chars(y1 % 100), two_chars(y2 / 100), two_chars(y2 % 100));
}

proof fn lemma_two_chars_compare(n1: int, n2: int)
    requires
        0 <= n1 <= 99,
        0 <= n2 <= 99,
    ensures
        text_before(two_chars(n1), two_chars(n2)) == (n1 < n2),
        (two_chars(n1) == two_chars(n2)) == (n1 == n2),
{
    lemma_digit_char(n1 / 10);
    lemma_digit_char(n1 % 10);
    lemma_digit_char(n2 / 10);
    lemma_digit_char(n2 % 10);
    reveal_with_fuel(text_before, 3);
    let s1 = two_chars(n1);
    let s2 = two_chars(n2);
    if n1 == n2 {
        assert(s1 =~= s2);
    } else {
        assert(s1 != s2) by {
            if s1 == s2 {
                assert(s1[0] == s2[0] && s1[1] == s2[1]);
            }
        }
    }
    assert(s1.drop_first() =~= seq![s1[1]]);
    assert(s2.drop_first() =~= seq![s2[1]]);
}

/// The characters after the year: `-MM-DD`.
pub open spec fn month_day_chars(m: int, d: int) -> Seq<char> {
    seq!['-'] + (two_chars(m) + (seq!['-'] + two_chars(d)))
}

proof fn lemma_iso_split(y: int, m: int, d: int)
    ensures
        iso_chars(y, m, d) =~= year_chars(y) + month_day_chars(m, d),
{
}

proof fn lemma_month_day_compare(m1: int, d1: int, m2: int, d2: int)
    requires
        0 <= m1 <= 99,
        0 <= m2 <= 99,
        0 <= d1 <= 99,
        0 <= d2 <= 99,
    ensures
        text_before(month_day_chars(m1, d1), month_day_chars(m2, d2)) == (m1 < m2 || (m1 == m2
            && d1 < d2)),
        (month_day_chars(m1, d1) == month_day_chars(m2, d2)) == (m1 == m2 && d1 == d2),
{
    let dash = seq!['-'];
    let t1 = seq!['-'] + two_chars(d1);
    let t2 = seq!['-'] + two_chars(d2);
    let r1 = two_chars(m1) + t1;
    let r2 = two_chars(m2) + t2;
    lemma_two_chars_compare(d1, d2);
    lemma_two_chars_compare(m1, m2);
    lemma_text_before_concat(dash, two_chars(d1), dash, two_chars(d2));
    lemma_concat_eq(dash, two_chars(d1), dash, two_chars(d2));
    lemma_text_before_concat(two_chars(m1), t1, two_chars(m2), t2);
    lemma_concat_eq(two_chars(m1), t1, two_chars(m2), t2);
    lemma_text_before_concat(dash, r1, dash, r2);
    lemma_concat_eq(dash, r1, dash, r2);
}

/// Two dates of years 0 to 9999 compare as their texts do.
proof fn lemma_iso_chars_compare(a: (int, int, int), b: (int, int, int))
    requires
        0 <= a.0 <= 9999,
        0 <= b.0 <= 9999,
        1 <= a.1 <= 12,
        1 <= b.1 <= 12,
        1 <= a.2 <= 31,
        1 <= b.2 <= 31,
    ensures
        text_before(iso_chars(a.0, a.1, a.2), iso_chars(b.0, b.1, b.2)) == date_before(a, b),
        (iso_chars(a.0, a.1, a.2) == iso_chars(b.0, b.1, b.2)) == (a == b),
{
    lemma_iso_split(a.0, a.1, a.2);
    lemma_iso_split(b.0, b.1, b.2);
    lemma_year_chars_compare(a.0, b.0);
    lemma_month_day_compare(a.1, a.2, b.1, b.2);
    lemma_text_before_concat(
        year_chars(a.0),
        month_day_chars(a.1, a.2),
        year_chars(b.0),
        month_day_chars(b.1, b.2),
    );
    lemma_concat_eq(
        year_chars(a.0),
        month_day_chars(a.1, a.2),
        year_chars(b.0),
        month_day_chars(b.1, b.2),
    );
}

/// The texts of dates sort as the days they stand for. For two day counts
/// whose dates fall in years 0 to 9999, the text of the earlier day comes
/// first in the order in which `String`s compare, and the two texts are
/// equal exactly when the day counts are, so a text names one day.
pub proof fn lemma_date_texts_keep_order(d1: int, d2: int)
    requires
        0 <= civil_from_days(d1).0 <= 9999,
        0 <= civil_from_days(d2).0 <= 9999,
    ensures
        (d1 < d2) == text_before(epoch_day_text(d1), epoch_day_text(d2)),
        (d1 == d2) == (epoch_day_text(d1) == epoch_day_text(d2)),
{
    let a = civil_from_days(d1);
    let b = civil_from_days(d2);
    lemma_listed_date_counts_back(d1);
    lemma_listed_date_counts_back(d2);
    lemma_iso_chars(a.0, a.1, a.2);
    lemma_iso_chars(b.0, b.1, b.2);
    lemma_iso_chars_compare(a, b);
    assert(epoch_day_text(d1) == iso_date(a.0, a.1, a.2));
    assert(epoch_day_text(d2) == iso_date(b.0, b.1, b.2));
    if date_before(a, b) {
        lemma_day_count_keeps_order(a, b);
    } else if date_before(b, a) {
        lemma_day_count_keeps_order(b, a);
    } else {
        assert(a == b);
    }
}

} // verus!
