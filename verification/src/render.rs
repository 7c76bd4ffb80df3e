//! Textual rendering of resolved date bounds: the human-readable
//! `YYYY-MM-DD HH:MM:SS` form used by the search request, the compact
//! `YYYYMMDD` form used by the download request and the output filename, and
//! the `YYYYMMDDHHMMSS` generation stamp.

use vstd::prelude::*;
use vstd::string::StringExecFns;

use crate::date::{day_of, digit_val, is_digit, month_of, valid_date_str, year_of, Date, Zoned};

verus! {

use vstd::arithmetic::div_mod::{lemma_div_denominator, lemma_fundamental_div_mod, lemma_mod_bound};

pub open spec fn digit_char(d: int) -> char {
    if d == 0 {
        '0'
    } else if d == 1 {
        '1'
    } else if d == 2 {
        '2'
    } else if d == 3 {
        '3'
    } else if d == 4 {
        '4'
    } else if d == 5 {
        '5'
    } else if d == 6 {
        '6'
    } else if d == 7 {
        '7'
    } else if d == 8 {
        '8'
    } else {
        '9'
    }
}

/// `n` zero-padded to two decimal digits.
pub open spec fn two_digits(n: int) -> Seq<char> {
    seq![digit_char(n / 10), digit_char(n % 10)]
}

/// `n` zero-padded to four decimal digits.
pub open spec fn four_digits(n: int) -> Seq<char> {
    seq![
        digit_char(n / 1000),
        digit_char((n / 100) % 10),
        digit_char((n / 10) % 10),
        digit_char(n % 10),
    ]
}

/// The `YYYY-MM-DD` rendering of a date.
pub open spec fn date_str(d: Date) -> Seq<char> {
    four_digits(d.year as int) + seq!['-'] + two_digits(d.month as int) + seq!['-'] + two_digits(
        d.day as int,
    )
}

/// The `YYYY-MM-DD HH:MM:SS` rendering of a UTC+7 wall-clock time.
pub open spec fn datetime_str(z: Zoned) -> Seq<char> {
    date_str(z.date) + seq![' '] + two_digits(z.hour as int) + seq![':'] + two_digits(
        z.minute as int,
    ) + seq![':'] + two_digits(z.second as int)
}

/// The compact `YYYYMMDD` rendering of a date.
pub open spec fn compact_date_str(d: Date) -> Seq<char> {
    four_digits(d.year as int) + two_digits(d.month as int) + two_digits(d.day as int)
}

/// The `YYYYMMDDHHMMSS` rendering of a generation timestamp.
pub open spec fn stamp_str(z: Zoned) -> Seq<char> {
    four_digits(z.date.year as int) + two_digits(z.date.month as int) + two_digits(z.date.day as int)
        + two_digits(z.hour as int) + two_digits(z.minute as int) + two_digits(z.second as int)
}

proof fn lemma_digit_char_val(k: int)
    requires
        0 <= k <= 9,
    ensures
        is_digit(digit_char(k)),
        digit_val(digit_char(k)) == k,
{
}

proof fn lemma_two_digit_decomp(n: int)
    requires
        0 <= n <= 99,
    ensures
        0 <= n / 10 <= 9,
        0 <= n % 10 <= 9,
        (n / 10) * 10 + n % 10 == n,
{
    lemma_fundamental_div_mod(n, 10);
    lemma_mod_bound(n, 10);
}

proof fn lemma_four_digit_decomp(n: int)
    requires
        0 <= n <= 9999,
    ensures
        0 <= n / 1000 <= 9,
        0 <= (n / 100) % 10 <= 9,
        0 <= (n / 10) % 10 <= 9,
        0 <= n % 10 <= 9,
        (n / 1000) * 1000 + ((n / 100) % 10) * 100 + ((n / 10) % 10) * 10 + n % 10 == n,
{
    lemma_fundamental_div_mod(n, 10);
    lemma_mod_bound(n, 10);
    lemma_div_denominator(n, 10, 10);
    lemma_fundamental_div_mod(n / 10, 10);
    lemma_mod_bound(n / 10, 10);
    lemma_div_denominator(n, 100, 10);
    lemma_fundamental_div_mod(n / 100, 10);
    lemma_mod_bound(n / 100, 10);
}

/// Rendering a well-formed date and parsing the rendering give the date back:
/// the strict `YYYY-MM-DD` grammar accepts exactly what the renderer writes,
/// and reads the same year, month and day out of it.
pub proof fn lemma_date_round_trip(d: Date)
    requires
        d.wf(),
    ensures
        valid_date_str(date_str(d)),
        year_of(date_str(d)) == d.year,
        month_of(date_str(d)) == d.month,
        day_of(date_str(d)) == d.day,
{
    let s = date_str(d);
    let y = d.year as int;
    let m = d.month as int;
    let a = d.day as int;
    lemma_four_digit_decomp(y);
    lemma_two_digit_decomp(m);
    lemma_two_digit_decomp(a);
    lemma_digit_char_val(y / 1000);
    lemma_digit_char_val((y / 100) % 10);
    lemma_digit_char_val((y / 10) % 10);
    lemma_digit_char_val(y % 10);
    lemma_digit_char_val(m / 10);
    lemma_digit_char_val(m % 10);
    lemma_digit_char_val(a / 10);
    lemma_digit_char_val(a % 10);
    assert(s.len() == 10);
    assert(s[0] == digit_char(y / 1000));
    assert(s[1] == digit_char((y / 100) % 10));
    assert(s[2] == digit_char((y / 10) % 10));
    assert(s[3] == digit_char(y % 10));
    assert(s[4] == '-');
    assert(s[5] == digit_char(m / 10));
    assert(s[6] == digit_char(m % 10));
    assert(s[7] == '-');
    assert(s[8] == digit_char(a / 10));
    assert(s[9] == digit_char(a % 10));
}

/// The date part of the rendered search bound is exactly the rendered date:
/// `YYYY-MM-DD HH:MM:SS` opens with `YYYY-MM-DD`.
pub proof fn lemma_datetime_opens_with_date(z: Zoned)
    ensures
        datetime_str(z).take(10) == date_str(z.date),
        datetime_str(z).len() == 19,
{
    assert(datetime_str(z).take(10) =~= date_str(z.date));
}

fn digit_str(d: u32) -> (r: &'static str)
    requires
        d <= 9,
    ensures
        r@ == seq![digit_char(d as int)],
{
    let r: &'static str = match d {
        0 => "0",
        1 => "1",
        2 => "2",
        3 => "3",
        4 => "4",
        5 => "5",
        6 => "6",
        7 => "7",
        8 => "8",
        _ => "9",
    };
    proof {
        reveal_strlit("0");
        reveal_strlit("1");
        reveal_strlit("2");
        reveal_strlit("3");
        reveal_strlit("4");
        reveal_strlit("5");
        reveal_strlit("6");
        reveal_strlit("7");
        reveal_strlit("8");
        reveal_strlit("9");
        assert(r@ =~= seq![digit_char(d as int)]);
    }
    r
}

fn push_two_digits(s: &mut String, n: u32)
    requires
        n <= 99,
    ensures
        final(s)@ == old(s)@ + two_digits(n as int),
{
    s.append(digit_str(n / 10));
    s.append(digit_str(n % 10));
    proof {
        assert(s@ =~= old(s)@ + two_digits(n as int));
    }
}

fn push_four_digits(s: &mut String, n: u32)
    requires
        n <= 9999,
    ensures
        final(s)@ == old(s)@ + four_digits(n as int),
{
    s.append(digit_str(n / 1000));
    s.append(digit_str((n / 100) % 10));
    s.append(digit_str((n / 10) % 10));
    s.append(digit_str(n % 10));
    proof {
        assert(s@ =~= old(s)@ + four_digits(n as int));
    }
}

/// Renders a resolved bound as `YYYY-MM-DD HH:MM:SS`, the form the search
/// request carries in `docDateFrom` and `docDateTo`.
pub fn datetime_string(z: &Zoned) -> (r: String)
    requires
        z.wf(),
    ensures
        r@ == datetime_str(*z),
{
    let mut s = String::new();
    push_four_digits(&mut s, z.date.year);
    s.append("-");
    push_two_digits(&mut s, z.date.month);
    s.append("-");
    push_two_digits(&mut s, z.date.day);
    s.append(" ");
    push_two_digits(&mut s, z.hour);
    s.append(":");
    push_two_digits(&mut s, z.minute);
    s.append(":");
    push_two_digits(&mut s, z.second);
    proof {
        reveal_strlit("-");
        reveal_strlit(" ");
        reveal_strlit(":");
        assert(s@ =~= datetime_str(*z));
    }
    s
}

/// Renders a date as compact `YYYYMMDD`.
pub fn compact_date_string(d: &Date) -> (r: String)
    requires
        d.wf(),
    ensures
        r@ == compact_date_str(*d),
{
    let mut s = String::new();
    push_four_digits(&mut s, d.year);
    push_two_digits(&mut s, d.month);
    push_two_digits(&mut s, d.day);
    proof {
        assert(s@ =~= compact_date_str(*d));
    }
    s
}

/// Renders a generation timestamp as `YYYYMMDDHHMMSS`.
pub fn stamp_string(z: &Zoned) -> (r: String)
    requires
        z.wf(),
    ensures
        r@ == stamp_str(*z),
{
    let mut s = String::new();
    push_four_digits(&mut s, z.date.year);
    push_two_digits(&mut s, z.date.month);
    push_two_digits(&mut s, z.date.day);
    push_two_digits(&mut s, z.hour);
    push_two_digits(&mut s, z.minute);
    push_two_digits(&mut s, z.second);
    proof {
        assert(s@ =~= stamp_str(*z));
    }
    s
}

} // verus!
