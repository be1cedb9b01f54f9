//! Calendar dates, as stored for deadlines and prediction windows, and how they are
//! written for display.

use vstd::prelude::*;
use crate::parse::digits_value;
use crate::text::{append_digits, append_str, digits, push_char};

verus! {

/// A date of the proleptic Gregorian calendar.
#[derive(Debug, Clone, Copy, PartialEq, Eq, Structural)]
pub struct CalendarDate {
    pub year: i32,
    /// From 1 to 12.
    pub month: u32,
    /// From 1 to 31.
    pub day: u32,
}

/// The digits of a number, padded with zeros on the left to at least `width` digits.
pub open spec fn zero_padded(n: nat, width: nat) -> Seq<char>
    decreases width,
{
    if digits(n).len() >= width || width == 0 {
        digits(n)
    } else {
        seq!['0'] + zero_padded(n, (width - 1) as nat)
    }
}

/// A year as `%Y` writes it: four digits at least, with a sign for years before 0 and
/// after 9999.
pub open spec fn year_text(year: int) -> Seq<char> {
    if year < 0 {
        seq!['-'] + zero_padded((-year) as nat, 4)
    } else if year > 9999 {
        seq!['+'] + digits(year as nat)
    } else {
        zero_padded(year as nat, 4)
    }
}

/// A date written as month, day and year (`%m/%d/%Y`), such as `03/07/2025`.
pub open spec fn us_date_text(d: CalendarDate) -> Seq<char> {
    zero_padded(d.month as nat, 2) + seq!['/'] + zero_padded(d.day as nat, 2) + seq!['/'] + year_text(
        d.year as int,
    )
}

/// Whether a year of the proleptic Gregorian calendar is a leap year.
pub open spec fn is_leap_year(year: int) -> bool {
    (year % 4 == 0 && year % 100 != 0) || year % 400 == 0
}

/// The number of days in a month (1 to 12) of a year.
pub open spec fn days_in_month(year: int, month: int) -> int {
    if month == 2 {
        if is_leap_year(year) {
            29
        } else {
            28
        }
    } else if month == 4 || month == 6 || month == 9 || month == 11 {
        30
    } else {
        31
    }
}

/// Whether the date exists and lies in the years that chrono's dates cover (-262143 to
/// 262142).
pub open spec fn is_chrono_date(d: CalendarDate) -> bool {
    &&& -262143 <= d.year <= 262142
    &&& 1 <= d.month <= 12
    &&& 1 <= d.day <= days_in_month(d.year as int, d.month as int)
}

impl CalendarDate {
    /// The date with the given year, month and day, where it exists and lies in the years
    /// that chrono's dates cover; `None` otherwise.
    pub fn from_ymd(year: i32, month: u32, day: u32) -> (r: Option<CalendarDate>)
        ensures
            r == (if is_chrono_date(CalendarDate { year, month, day }) {
                Some(CalendarDate { year, month, day })
            } else {
                None
            }),
    {
        if year < -262143 || year > 262142 || month < 1 || month > 12 || day < 1 {
            return None;
        }
        let shifted: u32 = (year as i64 + 400_000) as u32;
        proof {
            let y = year as int;
            assert(y % 4 == (y + 400_000) % 4) by (nonlinear_arith)
                requires -262143 <= y <= 262142;
            assert(y % 100 == (y + 400_000) % 100) by (nonlinear_arith)
                requires -262143 <= y <= 262142;
            assert(y % 400 == (y + 400_000) % 400) by (nonlinear_arith)
                requires -262143 <= y <= 262142;
        }
        let leap = (shifted % 4 == 0 && shifted % 100 != 0) || shifted % 400 == 0;
        let days: u32 = if month == 2 {
            if leap {
                29
            } else {
                28
            }
        } else if month == 4 || month == 6 || month == 9 || month == 11 {
            30
        } else {
            31
        };
        if day <= days {
            Some(CalendarDate { year, month, day })
        } else {
            None
        }
    }
}

proof fn lemma_digits_len(n: nat)
    ensures
        n < 10 ==> digits(n).len() == 1,
        10 <= n < 100 ==> digits(n).len() == 2,
        100 <= n < 1000 ==> digits(n).len() == 3,
        1000 <= n < 10000 ==> digits(n).len() == 4,
        n >= 1000 ==> digits(n).len() >= 4,
    decreases n,
{
    if n >= 10 {
        lemma_digits_len(n / 10);
    }
}

/// The number of zeros that pad a number to the width.
pub open spec fn padding(n: nat, width: nat) -> nat {
    if digits(n).len() >= width {
        0
    } else {
        (width - digits(n).len()) as nat
    }
}

proof fn lemma_zero_padded(n: nat, width: nat)
    ensures
        zero_padded(n, width) == Seq::new(padding(n, width), |i: int| '0') + digits(n),
    decreases width,
{
    crate::text::lemma_digits_nonempty(n);
    if digits(n).len() >= width || width == 0 {
        assert(Seq::new(padding(n, width), |i: int| '0') + digits(n) =~= digits(n));
    } else {
        lemma_zero_padded(n, (width - 1) as nat);
        assert(seq!['0'] + (Seq::new(padding(n, (width - 1) as nat), |i: int| '0') + digits(n)) =~= Seq::new(
            padding(n, width),
            |i: int| '0',
        ) + digits(n));
    }
}

/// The date that chrono can hold which, written as `%m/%d/%Y` writes it, gives the text;
/// `None` where there is no such date.
pub open spec fn us_date_reading(text: Seq<char>) -> Option<CalendarDate> {
    if exists|d: CalendarDate| #[trigger] us_date_text(d) == text && is_chrono_date(d) {
        Some(choose|d: CalendarDate| #[trigger] us_date_text(d) == text && is_chrono_date(d))
    } else {
        None
    }
}

proof fn lemma_digits_value_zero_prefix(s: Seq<char>)
    ensures
        digits_value(seq!['0'] + s) == digits_value(s),
    decreases s.len(),
{
    let z = seq!['0'] + s;
    if s.len() == 0 {
        assert(z.drop_last() =~= Seq::<char>::empty());
        assert(digits_value(Seq::<char>::empty()) == 0);
        assert(z.last() == '0');
    } else {
        lemma_digits_value_zero_prefix(s.drop_last());
        assert(z.drop_last() =~= seq!['0'] + s.drop_last());
        assert(z.last() == s.last());
    }
}

proof fn lemma_zero_padded_facts(n: nat, width: nat)
    ensures
        digits_value(zero_padded(n, width)) == n,
        zero_padded(n, width).len() >= 1,
        forall|i: int| 0 <= i < zero_padded(n, width).len() ==> '0' <= #[trigger] zero_padded(n, width)[i] <= '9',
        n < 100 ==> zero_padded(n, 2).len() == 2,
        n < 10000 ==> zero_padded(n, 4).len() == 4,
    decreases width,
{
    crate::text::lemma_digits_nonempty(n);
    crate::text::lemma_digits_are_digits(n);
    crate::chain_events::lemma_digits_value(n);
    lemma_digits_len(n);
    lemma_zero_padded(n, 2);
    lemma_zero_padded(n, 4);
    if !(digits(n).len() >= width || width == 0) {
        lemma_zero_padded_facts(n, (width - 1) as nat);
        lemma_digits_value_zero_prefix(zero_padded(n, (width - 1) as nat));
        let z = zero_padded(n, width);
        assert forall|i: int| 0 <= i < z.len() implies '0' <= #[trigger] z[i] <= '9' by {
            if i > 0 {
                assert(z[i] == zero_padded(n, (width - 1) as nat)[i - 1]);
            }
        }
    }
}

proof fn lemma_year_text_first(a: int)
    ensures
        year_text(a).len() >= 1,
        (year_text(a)[0] == '-') == (a < 0),
        (year_text(a)[0] == '+') == (a > 9999),
{
    if a < 0 {
        assert(year_text(a)[0] == '-');
    } else if a > 9999 {
        assert(year_text(a)[0] == '+');
    } else {
        lemma_zero_padded_facts(a as nat, 4);
        assert(year_text(a) == zero_padded(a as nat, 4));
        assert('0' <= year_text(a)[0] <= '9');
    }
}

proof fn lemma_year_text_injective(a: int, b: int)
    requires
        year_text(a) == year_text(b),
    ensures
        a == b,
{
    let t = year_text(a);
    lemma_year_text_first(a);
    lemma_year_text_first(b);
    if a < 0 {
        assert(b < 0);
        lemma_zero_padded_facts((-a) as nat, 4);
        lemma_zero_padded_facts((-b) as nat, 4);
        assert(t.drop_first() =~= zero_padded((-a) as nat, 4));
        assert(year_text(b).drop_first() =~= zero_padded((-b) as nat, 4));
    } else if a > 9999 {
        assert(b > 9999);
        crate::chain_events::lemma_digits_value(a as nat);
        crate::chain_events::lemma_digits_value(b as nat);
        assert(t.drop_first() =~= digits(a as nat));
        assert(year_text(b).drop_first() =~= digits(b as nat));
    } else {
        assert(0 <= b <= 9999);
        lemma_zero_padded_facts(a as nat, 4);
        lemma_zero_padded_facts(b as nat, 4);
    }
}

proof fn lemma_us_date_text_injective(d1: CalendarDate, d2: CalendarDate)
    requires
        is_chrono_date(d1),
        is_chrono_date(d2),
        us_date_text(d1) == us_date_text(d2),
    ensures
        d1 == d2,
{
    let t = us_date_text(d1);
    lemma_zero_padded_facts(d1.month as nat, 2);
    lemma_zero_padded_facts(d2.month as nat, 2);
    lemma_zero_padded_facts(d1.day as nat, 2);
    lemma_zero_padded_facts(d2.day as nat, 2);
    assert(t.subrange(0, 2) =~= zero_padded(d1.month as nat, 2));
    assert(us_date_text(d2).subrange(0, 2) =~= zero_padded(d2.month as nat, 2));
    assert(t.subrange(3, 5) =~= zero_padded(d1.day as nat, 2));
    assert(us_date_text(d2).subrange(3, 5) =~= zero_padded(d2.day as nat, 2));
    assert(t.subrange(6, t.len() as int) =~= year_text(d1.year as int));
    assert(us_date_text(d2).subrange(6, t.len() as int) =~= year_text(d2.year as int));
    lemma_year_text_injective(d1.year as int, d2.year as int);
}

/// A date that chrono can hold, written as month, day and year (`%m/%d/%Y`), is read
/// back as that date: no other such date is written the same way.
pub proof fn lemma_us_date_reads_back(d: CalendarDate)
    requires
        is_chrono_date(d),
    ensures
        us_date_reading(us_date_text(d)) == Some(d),
{
    let t = us_date_text(d);
    assert(us_date_text(d) == t && is_chrono_date(d));
    let e = choose|e: CalendarDate| #[trigger] us_date_text(e) == t && is_chrono_date(e);
    lemma_us_date_text_injective(d, e);
}

fn append_padded(s: &mut String, n: u32, width: u32)
    requires
        width <= 4,
    ensures
        final(s)@ == old(s)@ + zero_padded(n as nat, width as nat),
{
    proof {
        lemma_digits_len(n as nat);
        lemma_zero_padded(n as nat, width as nat);
    }
    let count: u32 = if n < 10 {
        1
    } else if n < 100 {
        2
    } else if n < 1000 {
        3
    } else {
        4
    };
    let zeros: u32 = if width > count {
        width - count
    } else {
        0
    };
    assert(zeros == padding(n as nat, width as nat));
    let ghost start = s@;
    let mut k: u32 = 0;
    while k < zeros
        invariant
            k <= zeros,
            s@ == start + Seq::new(k as nat, |i: int| '0'),
        decreases zeros - k,
    {
        push_char(s, '0');
        k = k + 1;
        assert(s@ =~= start + Seq::new(k as nat, |i: int| '0'));
    }
    append_digits(s, n as u64);
    assert(s@ =~= start + zero_padded(n as nat, width as nat));
}

/// Writes a date as month, day and year (`%m/%d/%Y`).
pub fn format_us_date(d: &CalendarDate) -> (text: String)
    ensures
        text@ == us_date_text(*d),
{
    let mut text = String::new();
    append_padded(&mut text, d.month, 2);
    push_char(&mut text, '/');
    append_padded(&mut text, d.day, 2);
    push_char(&mut text, '/');
    append_year(&mut text, d.year);
    assert(text@ =~= us_date_text(*d));
    text
}

/// The English abbreviation of a month (`%b`), such as `Mar`.
pub open spec fn month_abbreviation(month: u32) -> Seq<char> {
    if month == 1 {
        "Jan"@
    } else if month == 2 {
        "Feb"@
    } else if month == 3 {
        "Mar"@
    } else if month == 4 {
        "Apr"@
    } else if month == 5 {
        "May"@
    } else if month == 6 {
        "Jun"@
    } else if month == 7 {
        "Jul"@
    } else if month == 8 {
        "Aug"@
    } else if month == 9 {
        "Sep"@
    } else if month == 10 {
        "Oct"@
    } else if month == 11 {
        "Nov"@
    } else {
        "Dec"@
    }
}

/// A date written as abbreviated month, day and year (`%b %d, %Y`), such as
/// `Mar 07, 2025`.
pub open spec fn long_date_text(d: CalendarDate) -> Seq<char> {
    month_abbreviation(d.month) + " "@ + zero_padded(d.day as nat, 2) + ", "@ + year_text(d.year as int)
}

/// The abbreviations of the months of the year, January first, as `%b` writes them.
pub open spec fn english_month_abbreviations() -> Seq<Seq<char>> {
    seq!["Jan"@, "Feb"@, "Mar"@, "Apr"@, "May"@, "Jun"@, "Jul"@, "Aug"@, "Sep"@, "Oct"@, "Nov"@, "Dec"@]
}

proof fn lemma_month_abbreviations_distinct()
    ensures
        forall|a: int, b: int|
            0 <= a < 12 && 0 <= b < 12 && a != b ==> #[trigger] english_month_abbreviations()[a]
                != #[trigger] english_month_abbreviations()[b],
        forall|a: int| 0 <= a < 12 ==> (#[trigger] english_month_abbreviations()[a]).len() == 3,
{
    reveal_strlit("Jan");
    reveal_strlit("Feb");
    reveal_strlit("Mar");
    reveal_strlit("Apr");
    reveal_strlit("May");
    reveal_strlit("Jun");
    reveal_strlit("Jul");
    reveal_strlit("Aug");
    reveal_strlit("Sep");
    reveal_strlit("Oct");
    reveal_strlit("Nov");
    reveal_strlit("Dec");
    let m = english_month_abbreviations();
    assert forall|a: int, b: int|
        0 <= a < 12 && 0 <= b < 12 && a != b implies #[trigger] m[a] != #[trigger] m[b] by {
        if m[a] == m[b] {
            assert(m[a][0] == m[b][0] && m[a][1] == m[b][1] && m[a][2] == m[b][2]);
        }
    }
}

/// Month `m` (1 to 12) is written as the `m`-th of `Jan` to `Dec`, so no two months are
/// written alike.
pub proof fn lemma_month_abbreviation_is_english(month: u32)
    requires
        1 <= month <= 12,
    ensures
        month_abbreviation(month) == english_month_abbreviations()[month - 1],
        forall|other: u32|
            1 <= other <= 12 && other != month ==> #[trigger] month_abbreviation(other) != month_abbreviation(
                month,
            ),
{
    lemma_month_abbreviations_distinct();
    assert forall|other: u32|
        1 <= other <= 12 && other != month implies #[trigger] month_abbreviation(other) != month_abbreviation(
            month,
        ) by {
        assert(month_abbreviation(other) == english_month_abbreviations()[other - 1]);
        assert(month_abbreviation(month) == english_month_abbreviations()[month - 1]);
    }
}

/// A date written as abbreviated month, day and year (`%b %d, %Y`) reads back: no two
/// dates that exist are written alike.
pub proof fn lemma_long_date_text_injective(d1: CalendarDate, d2: CalendarDate)
    requires
        is_chrono_date(d1),
        is_chrono_date(d2),
        long_date_text(d1) == long_date_text(d2),
    ensures
        d1 == d2,
{
    reveal_strlit(" ");
    reveal_strlit(", ");
    lemma_month_abbreviation_is_english(d1.month);
    lemma_month_abbreviation_is_english(d2.month);
    lemma_month_abbreviations_distinct();
    let t = long_date_text(d1);
    let u = long_date_text(d2);
    lemma_zero_padded_facts(d1.day as nat, 2);
    lemma_zero_padded_facts(d2.day as nat, 2);
    let m1 = month_abbreviation(d1.month);
    let m2 = month_abbreviation(d2.month);
    assert(m1.len() == 3 && m2.len() == 3);
    assert(t.subrange(0, 3) =~= m1);
    assert(u.subrange(0, 3) =~= m2);
    if d1.month != d2.month {
        assert(m1 != m2);
    }
    assert(t.subrange(4, 6) =~= zero_padded(d1.day as nat, 2));
    assert(u.subrange(4, 6) =~= zero_padded(d2.day as nat, 2));
    assert(t.subrange(8, t.len() as int) =~= year_text(d1.year as int));
    assert(u.subrange(8, u.len() as int) =~= year_text(d2.year as int));
    lemma_year_text_injective(d1.year as int, d2.year as int);
}

fn month_name(month: u32) -> (s: &'static str)
    ensures
        s@ == month_abbreviation(month),
{
    if month == 1 {
        "Jan"
    } else if month == 2 {
        "Feb"
    } else if month == 3 {
        "Mar"
    } else if month == 4 {
        "Apr"
    } else if month == 5 {
        "May"
    } else if month == 6 {
        "Jun"
    } else if month == 7 {
        "Jul"
    } else if month == 8 {
        "Aug"
    } else if month == 9 {
        "Sep"
    } else if month == 10 {
        "Oct"
    } else if month == 11 {
        "Nov"
    } else {
        "Dec"
    }
}

fn append_year(s: &mut String, year: i32)
    ensures
        final(s)@ == old(s)@ + year_text(year as int),
{
    if year < 0 {
        push_char(s, '-');
        let magnitude: u32 = (-(year as i64)) as u32;
        append_padded(s, magnitude, 4);
    } else if year > 9999 {
        push_char(s, '+');
        append_digits(s, year as u64);
    } else {
        append_padded(s, year as u32, 4);
    }
    assert(final(s)@ =~= old(s)@ + year_text(year as int));
}

/// A date written as abbreviated month, day and year (`%b %d, %Y`); empty where there is
/// no date.
pub fn datetime_to_string(datetime: Option<CalendarDate>) -> (text: String)
    ensures
        text@ == match datetime {
            Some(d) => long_date_text(d),
            None => Seq::empty(),
        },
{
    match datetime {
        Some(d) => {
            let mut text = String::from_str(month_name(d.month));
            append_str(&mut text, " ");
            append_padded(&mut text, d.day, 2);
            append_str(&mut text, ", ");
            append_year(&mut text, d.year);
            assert(text@ =~= long_date_text(d));
            text
        },
        None => String::new(),
    }
}

/// The number of bytes that a character takes in UTF-8.
pub open spec fn utf8_len(c: char) -> nat {
    if (c as u32) < 0x80 {
        1
    } else if (c as u32) < 0x800 {
        2
    } else if (c as u32) < 0x10000 {
        3
    } else {
        4
    }
}

/// The number of bytes that a text takes in UTF-8.
pub open spec fn byte_len(s: Seq<char>) -> nat
    decreases s.len(),
{
    if s.len() == 0 {
        0
    } else {
        byte_len(s.drop_last()) + utf8_len(s.last())
    }
}

/// Whether the text can be cut at byte 2 and before its last byte: its first characters
/// take exactly two bytes, its last character one, and at least one byte lies before it.
pub open spec fn doi_cuttable(s: Seq<char>) -> bool {
    &&& s.len() >= 1
    &&& utf8_len(s.last()) == 1
    &&& byte_len(s) >= 3
    &&& exists|k: int| 0 <= k < s.len() && #[trigger] byte_len(s.take(k)) == 2
}

/// The characters of the text from byte 2 to before its last byte.
pub open spec fn doi_middle(s: Seq<char>) -> Seq<char> {
    let k = choose|k: int| 0 <= k < s.len() && #[trigger] byte_len(s.take(k)) == 2;
    s.subrange(k, s.len() - 1)
}

/// The DOI identifier of an article: the year and month of the date (`%Y%m`), a dot, and
/// the article id without its first two bytes and its last byte.
pub open spec fn doi_identifier(d: CalendarDate, article_id: Seq<char>) -> Seq<char> {
    year_text(d.year as int) + zero_padded(d.month as nat, 2) + seq!['.'] + doi_middle(article_id)
}

proof fn lemma_byte_len_take_step(s: Seq<char>, k: int)
    requires
        0 <= k < s.len(),
    ensures
        byte_len(s.take(k + 1)) == byte_len(s.take(k)) + utf8_len(s[k]),
{
    assert(s.take(k + 1).drop_last() =~= s.take(k));
}

proof fn lemma_byte_len_take_mono(s: Seq<char>, i: int, j: int)
    requires
        0 <= i <= j <= s.len(),
    ensures
        byte_len(s.take(i)) + (j - i) <= byte_len(s.take(j)),
    decreases j - i,
{
    if i < j {
        lemma_byte_len_take_mono(s, i, j - 1);
        lemma_byte_len_take_step(s, j - 1);
    }
}

/// The DOI identifier of an article named after a proposal (`NB`, the proposal id, `A`)
/// carries the proposal id back: the article id can always be cut, and what lies between
/// its first two bytes and its last byte is the proposal id itself.
pub proof fn lemma_doi_gives_back_proposal_id(proposal_id: Seq<char>)
    ensures
        doi_cuttable("NB"@ + proposal_id + "A"@),
        doi_middle("NB"@ + proposal_id + "A"@) == proposal_id,
{
    reveal_strlit("NB");
    reveal_strlit("A");
    let a = "NB"@ + proposal_id + "A"@;
    assert(a[0] == 'N' && a[1] == 'B' && a.last() == 'A');
    assert(a.take(0) =~= Seq::<char>::empty());
    lemma_byte_len_take_step(a, 0);
    lemma_byte_len_take_step(a, 1);
    assert(byte_len(a.take(2)) == 2);
    lemma_byte_len_take_mono(a, 0, a.len() as int);
    assert(a.take(a.len() as int) =~= a);
    assert forall|k: int| 0 <= k < a.len() && #[trigger] byte_len(a.take(k)) == 2 implies k == 2 by {
        if k > 2 {
            lemma_byte_len_take_mono(a, 2, k);
        } else if k == 1 {
            assert(byte_len(a.take(1)) == 1);
        }
    }
    let k = choose|k: int| 0 <= k < a.len() && #[trigger] byte_len(a.take(k)) == 2;
    assert(k == 2);
    assert(a.subrange(2, a.len() - 1) =~= proposal_id);
}

fn char_utf8_len(c: char) -> (n: usize)
    ensures
        n == utf8_len(c),
{
    let v = c as u32;
    if v < 0x80 {
        1
    } else if v < 0x800 {
        2
    } else if v < 0x10000 {
        3
    } else {
        4
    }
}

/// The DOI identifier of an article: the year and month of `now`, or of `today` where
/// there is no `now` (`%Y%m`), a dot, and the article id without its first two bytes and
/// its last byte. The id must be cuttable there.
pub fn generate_doi_identifier(now: Option<CalendarDate>, today: CalendarDate, article_id: &str) -> (id: String)
    requires
        doi_cuttable(article_id@),
    ensures
        id@ == doi_identifier(
            match now {
                Some(d) => d,
                None => today,
            },
            article_id@,
        ),
{
    let d = match now {
        Some(d) => d,
        None => today,
    };
    let chars = crate::text::chars_of(article_id);
    let ghost s = article_id@;
    let mut k: usize = 0;
    let mut bytes: usize = 0;
    proof {
        assert(s.take(0) =~= Seq::<char>::empty());
    }
    while bytes < 2
        invariant
            chars@ == s,
            doi_cuttable(s),
            k < s.len(),
            bytes == byte_len(s.take(k as int)),
            bytes <= 2,
            k <= bytes,
        decreases 2 - bytes,
    {
        proof {
            lemma_byte_len_take_step(s, k as int);
            let w = choose|w: int| 0 <= w < s.len() && #[trigger] byte_len(s.take(w)) == 2;
            if w <= k {
                lemma_byte_len_take_mono(s, w, k as int);
            } else {
                lemma_byte_len_take_mono(s, k as int + 1, w);
            }
        }
        let step = char_utf8_len(chars[k]);
        bytes = bytes + step;
        k = k + 1;
        proof {
            if k as int >= s.len() {
                lemma_byte_len_take_mono(s, k as int - 1, s.len() as int);
            }
        }
    }
    proof {
        let w = choose|w: int| 0 <= w < s.len() && #[trigger] byte_len(s.take(w)) == 2;
        if w < k {
            lemma_byte_len_take_mono(s, w + 1, k as int);
            lemma_byte_len_take_step(s, w);
        } else if w > k {
            lemma_byte_len_take_mono(s, k as int + 1, w);
            lemma_byte_len_take_step(s, k as int);
        }
        assert(w == k);
    }
    let mut id = String::new();
    append_year(&mut id, d.year);
    append_padded(&mut id, d.month, 2);
    push_char(&mut id, '.');
    let end = chars.len() - 1;
    let ghost head = id@;
    let mut i: usize = k;
    while i < end
        invariant
            chars@ == s,
            k <= i <= end,
            end == s.len() - 1,
            id@ == head + s.subrange(k as int, i as int),
        decreases end - i,
    {
        push_char(&mut id, chars[i]);
        i = i + 1;
        assert(id@ =~= head + s.subrange(k as int, i as int));
    }
    assert(id@ =~= doi_identifier(d, s));
    id
}

/// How chrono writes the UTC time `millis` milliseconds after the Unix epoch (the
/// `Display` of `DateTime<Utc>`, such as `2024-01-01 12:00:00 UTC`); none for a time
/// that chrono cannot hold.
pub uninterp spec fn utc_timestamp_text(millis: i64) -> Option<Seq<char>>;

/// Writes a UTC time given in milliseconds after the Unix epoch
/// (`DateTime::<Utc>::from_timestamp_millis`, then its `Display`). The contract claims
/// only that the result is the one that `utc_timestamp_text` names for the time.
#[verifier::external_body]
pub(crate) fn timestamp_text(millis: i64) -> (t: Option<String>)
    ensures
        match utc_timestamp_text(millis) {
            Some(s) => t matches Some(v) && v@ == s,
            None => t is None,
        },
{
    chrono::DateTime::<chrono::Utc>::from_timestamp_millis(millis).map(|d| d.to_string())
}

} // verus!
