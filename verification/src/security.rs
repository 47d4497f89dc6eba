//! Supply-chain policy: release-age cooldown values, the uv `--exclude-newer`
//! cutoff date, and Socket Firewall (`sfw`) command wrapping.
use vstd::prelude::*;
use crate::num::{decimal, zero_pad, parse_u64, digit_char};
use crate::text::views;

verus! {

/// Default minimum package age before install/update (14 days).
pub const MIN_RELEASE_AGE_DAYS: u64 = 14;

/// Seconds in one day.
pub const SECONDS_PER_DAY: u64 = 86_400;

// ---------------------------------------------------------------------------
// Calendar
// ---------------------------------------------------------------------------

/// Whether `y` is a leap year of the proleptic Gregorian calendar.
pub open spec fn is_leap(y: int) -> bool {
    y % 4 == 0 && (y % 100 != 0 || y % 400 == 0)
}

/// Days in month `m` of year `y`.
pub open spec fn days_in_month(y: int, m: int) -> int {
    if m == 2 {
        if is_leap(y) { 29 } else { 28 }
    } else if m == 4 || m == 6 || m == 9 || m == 11 {
        30
    } else {
        31
    }
}

/// A valid proleptic Gregorian date.
pub open spec fn valid_date(y: int, m: int, d: int) -> bool {
    1 <= m <= 12 && 1 <= d <= days_in_month(y, m)
}

/// The number of days from 1970-01-01 to the date `(y, m, d)`: years start in
/// March so that the leap day is the last day of the counted year.
pub open spec fn days_from_civil(y: int, m: int, d: int) -> int {
    let y2 = if m <= 2 { y - 1 } else { y };
    let era = y2 / 400;
    let yoe = y2 - era * 400;
    let mp = if m > 2 { m - 3 } else { m + 9 };
    let doy = (153 * mp + 2) / 5 + d - 1;
    let doe = yoe * 365 + yoe / 4 - yoe / 100 + doy;
    era * 146097 + doe - 719468
}

/// The `YYYY-MM-DD` text of a date (`format!("{y:04}-{m:02}-{d:02}")`).
pub open spec fn ymd_text(y: nat, m: nat, d: nat) -> Seq<char> {
    zero_pad(decimal(y), 4) + seq!['-'] + zero_pad(decimal(m), 2) + seq!['-'] + zero_pad(
        decimal(d),
        2,
    )
}

/// Facts about one 400-year era: the year-of-era and day-of-year computed from a
/// day-of-era stay in range, and the month/day split is a valid date.
proof fn lemma_era_day(doe: int)
    requires
        0 <= doe <= 146096,
    ensures
        ({
            let yoe = (doe - doe / 1460 + doe / 36524 - doe / 146096) / 365;
            let doy = doe - (365 * yoe + yoe / 4 - yoe / 100);
            let mp = (5 * doy + 2) / 153;
            let d = doy - (153 * mp + 2) / 5 + 1;
            let m = if mp < 10 { mp + 3 } else { mp - 9 };
            &&& 0 <= yoe <= 399
            &&& 0 <= doy <= 365
            &&& 0 <= mp <= 11
            &&& 1 <= d <= 31
            &&& (mp == 11 ==> (d <= 28 || (d == 29 && (yoe + 1) % 4 == 0 && ((yoe + 1) % 100 != 0 || yoe == 399))))
            &&& ((m == 4 || m == 6 || m == 9 || m == 11) ==> d <= 30)
        }),
{
    let yoe = (doe - doe / 1460 + doe / 36524 - doe / 146096) / 365;
    let doy = doe - (365 * yoe + yoe / 4 - yoe / 100);
    assert(0 <= yoe <= 399) by (nonlinear_arith)
        requires
            0 <= doe <= 146096,
            yoe == (doe - doe / 1460 + doe / 36524 - doe / 146096) / 365,
    ;
    assert(0 <= doy <= 365) by (nonlinear_arith)
        requires
            0 <= doe <= 146096,
            yoe == (doe - doe / 1460 + doe / 36524 - doe / 146096) / 365,
            doy == doe - (365 * yoe + yoe / 4 - yoe / 100),
    ;
}

/// The calendar date `days` days after 1970-01-01, as (year, month, day).
#[verifier::spinoff_prover]
#[verifier::rlimit(40)]
fn civil_from_days(days: u64) -> (r: (u64, u32, u32))
    ensures
        valid_date(r.0 as int, r.1 as int, r.2 as int),
        days_from_civil(r.0 as int, r.1 as int, r.2 as int) == days as int,
{
    let z: u128 = days as u128 + 719_468;
    let era: u128 = z / 146_097;
    let doe: u128 = z - era * 146_097;
    proof {
        lemma_era_day(doe as int);
    }
    let yoe: u128 = (doe - doe / 1460 + doe / 36524 - doe / 146096) / 365;
    let doy: u128 = doe - (365 * yoe + yoe / 4 - yoe / 100);
    let mp: u128 = (5 * doy + 2) / 153;
    let d: u128 = doy - (153 * mp + 2) / 5 + 1;
    let m: u128 = if mp < 10 { mp + 3 } else { mp - 9 };
    let y: u128 = if m <= 2 { yoe + era * 400 + 1 } else { yoe + era * 400 };
    proof {
        let y2: int = yoe + era * 400;
        assert(y2 / 400 == era as int);
        assert(y <= u64::MAX);
        if m == 2 && d == 29 {
            assert(y as int % 4 == 0);
        }
    }
    (y as u64, m as u32, d as u32)
}

/// `YYYY-MM-DD` for the date `days` days after 1970-01-01.
pub fn format_ymd_from_unix_days(days: u64) -> (r: String)
    ensures
        is_date_text_of_day(r@, days as nat),
{
    let (y, m, d) = civil_from_days(days);
    let mut r = String::new();
    crate::num::push_decimal_padded(&mut r, y, 4);
    crate::text::push_char(&mut r, '-');
    crate::num::push_decimal_padded(&mut r, m as u64, 2);
    crate::text::push_char(&mut r, '-');
    crate::num::push_decimal_padded(&mut r, d as u64, 2);
    proof {
        assert(r@ =~= ymd_text(y as nat, m as nat, d as nat));
    }
    r
}

// ---------------------------------------------------------------------------
// Calendar order
// ---------------------------------------------------------------------------

/// Whether the date `(y1, m1, d1)` comes before `(y2, m2, d2)` in the calendar.
pub open spec fn date_before(y1: int, m1: int, d1: int, y2: int, m2: int, d2: int) -> bool {
    y1 < y2 || (y1 == y2 && (m1 < m2 || (m1 == m2 && d1 < d2)))
}

/// The calendar day after the date `(y, m, d)`.
pub open spec fn next_date(y: int, m: int, d: int) -> (int, int, int) {
    if d < days_in_month(y, m) {
        (y, m, d + 1)
    } else if m < 12 {
        (y, m + 1, 1)
    } else {
        (y + 1, 1, 1)
    }
}

/// The day count of 1 March of year `y2`, up to a fixed offset (years counted from March).
spec fn march_year_days(y2: int) -> int {
    y2 * 365 + y2 / 4 - y2 / 100 + y2 / 400
}

/// Days from 1 March to the first day of the `mp`-th month counted from March.
spec fn march_month_days(mp: int) -> int {
    (153 * mp + 2) / 5
}

/// The day number of 1 January of year `y`.
spec fn year_start(y: int) -> int {
    days_from_civil(y, 1, 1)
}

/// Days from 1 January of year `y` to the first day of month `m`.
spec fn month_offset(y: int, m: int) -> int {
    let l: int = if is_leap(y) { 1 } else { 0 };
    if m == 1 { 0 }
    else if m == 2 { 31 }
    else if m == 3 { 59 + l }
    else if m == 4 { 90 + l }
    else if m == 5 { 120 + l }
    else if m == 6 { 151 + l }
    else if m == 7 { 181 + l }
    else if m == 8 { 212 + l }
    else if m == 9 { 243 + l }
    else if m == 10 { 273 + l }
    else if m == 11 { 304 + l }
    else { 334 + l }
}

/// The day number splits into the March-year and the month within it.
proof fn lemma_days_from_civil_split(y: int, m: int, d: int)
    ensures
        days_from_civil(y, m, d) == march_year_days(if m <= 2 { y - 1 } else { y }) + march_month_days(
            if m > 2 { m - 3 } else { m + 9 },
        ) + d - 1 - 719468,
{
    let y2 = if m <= 2 { y - 1 } else { y };
    let era = y2 / 400;
    let yoe = y2 - era * 400;
    assert(0 <= yoe < 400);
    assert(y2 / 4 == era * 100 + yoe / 4);
    assert(y2 / 100 == era * 4 + yoe / 100);
    assert(y2 / 400 == era);
}

/// Stepping `x` by one raises `x / k` by one exactly when `x + 1` is a multiple of `k`.
proof fn lemma_div_step(x: int, k: int)
    requires
        k > 0,
    ensures
        (x + 1) / k == x / k + (if (x + 1) % k == 0 { 1int } else { 0 }),
{
    let q = x / k;
    let r = x % k;
    vstd::arithmetic::div_mod::lemma_fundamental_div_mod(x, k);
    assert((q + 1) * k == q * k + k && k * q == q * k) by (nonlinear_arith);
    if r + 1 == k {
        vstd::arithmetic::div_mod::lemma_fundamental_div_mod_converse(x + 1, k, q + 1, 0);
    } else {
        vstd::arithmetic::div_mod::lemma_fundamental_div_mod_converse(x + 1, k, q, r + 1);
    }
}

/// One March-year is 365 days, 366 when the February it ends with has a leap day.
#[verifier::spinoff_prover]
proof fn lemma_march_year_step(y2: int)
    ensures
        march_year_days(y2 + 1) == march_year_days(y2) + 365 + (if is_leap(y2 + 1) { 1int } else { 0 }),
{
    lemma_div_step(y2, 4);
    lemma_div_step(y2, 100);
    lemma_div_step(y2, 400);
}

/// A later year starts on a later day.
proof fn lemma_year_start_mono(a: int, b: int)
    requires
        a <= b,
    ensures
        year_start(a) <= year_start(b),
    decreases b - a,
{
    if a < b {
        lemma_year_start_mono(a, b - 1);
        lemma_days_from_civil_split(b - 1, 1, 1);
        lemma_days_from_civil_split(b, 1, 1);
        lemma_march_year_step(b - 2);
    }
}

/// The day number of a date is the start of its year plus its day of the year.
proof fn lemma_day_of_year(y: int, m: int, d: int)
    requires
        1 <= m <= 12,
    ensures
        days_from_civil(y, m, d) == year_start(y) + month_offset(y, m) + d - 1,
        year_start(y + 1) == year_start(y) + 365 + (if is_leap(y) { 1int } else { 0 }),
{
    lemma_days_from_civil_split(y, m, d);
    lemma_days_from_civil_split(y, 1, 1);
    lemma_days_from_civil_split(y + 1, 1, 1);
    lemma_march_year_step(y - 1);
    lemma_march_year_step(y);
    assert(march_month_days(10) == 306);
    assert(march_month_days(11) == 337);
    assert(march_month_days(0) == 0);
    assert(march_month_days(1) == 31);
    assert(march_month_days(2) == 61);
    assert(march_month_days(3) == 92);
    assert(march_month_days(4) == 122);
    assert(march_month_days(5) == 153);
    assert(march_month_days(6) == 184);
    assert(march_month_days(7) == 214);
    assert(march_month_days(8) == 245);
    assert(march_month_days(9) == 275);
}

/// Months follow each other without gaps, and the year ends after December.
proof fn lemma_month_offsets(y: int, m: int)
    requires
        1 <= m <= 12,
    ensures
        m < 12 ==> month_offset(y, m) + days_in_month(y, m) == month_offset(y, m + 1),
        m == 12 ==> month_offset(y, m) + days_in_month(y, m) == 365 + (if is_leap(y) { 1int } else { 0 }),
        forall|m2: int| m < m2 <= 12 ==> month_offset(y, m) + days_in_month(y, m) <= #[trigger] month_offset(y, m2),
{
}

/// Of two valid dates, the earlier one has the smaller day number.
pub proof fn lemma_later_date_later_day(y1: int, m1: int, d1: int, y2: int, m2: int, d2: int)
    requires
        valid_date(y1, m1, d1),
        valid_date(y2, m2, d2),
        date_before(y1, m1, d1, y2, m2, d2),
    ensures
        days_from_civil(y1, m1, d1) < days_from_civil(y2, m2, d2),
{
    lemma_day_of_year(y1, m1, d1);
    lemma_day_of_year(y2, m2, d2);
    lemma_month_offsets(y1, m1);
    if y1 < y2 {
        lemma_year_start_mono(y1 + 1, y2);
    }
}

/// Of two valid dates, the one with the smaller day number is the earlier one.
pub proof fn lemma_earlier_day_earlier_date(y1: int, m1: int, d1: int, y2: int, m2: int, d2: int)
    requires
        valid_date(y1, m1, d1),
        valid_date(y2, m2, d2),
        days_from_civil(y1, m1, d1) < days_from_civil(y2, m2, d2),
    ensures
        date_before(y1, m1, d1, y2, m2, d2),
{
    if date_before(y2, m2, d2, y1, m1, d1) {
        lemma_later_date_later_day(y2, m2, d2, y1, m1, d1);
    }
}

/// A day number belongs to at most one valid date.
pub proof fn lemma_day_determines_date(y1: int, m1: int, d1: int, y2: int, m2: int, d2: int)
    requires
        valid_date(y1, m1, d1),
        valid_date(y2, m2, d2),
        days_from_civil(y1, m1, d1) == days_from_civil(y2, m2, d2),
    ensures
        y1 == y2 && m1 == m2 && d1 == d2,
{
    if date_before(y1, m1, d1, y2, m2, d2) {
        lemma_later_date_later_day(y1, m1, d1, y2, m2, d2);
    } else if date_before(y2, m2, d2, y1, m1, d1) {
        lemma_later_date_later_day(y2, m2, d2, y1, m1, d1);
    }
}

/// The calendar day after a valid date is a valid date with the next day number.
pub proof fn lemma_next_date_next_day(y: int, m: int, d: int)
    requires
        valid_date(y, m, d),
    ensures
        valid_date(next_date(y, m, d).0, next_date(y, m, d).1, next_date(y, m, d).2),
        days_from_civil(next_date(y, m, d).0, next_date(y, m, d).1, next_date(y, m, d).2)
            == days_from_civil(y, m, d) + 1,
{
    let n = next_date(y, m, d);
    lemma_day_of_year(y, m, d);
    lemma_day_of_year(n.0, n.1, n.2);
    lemma_month_offsets(y, m);
}

/// `a` and `b` agree before position `i` and `a` has the smaller character at `i`.
pub open spec fn first_difference_at(a: Seq<char>, b: Seq<char>, i: int) -> bool {
    0 <= i < a.len() && i < b.len() && a.take(i) == b.take(i) && (a[i] as int) < (b[i] as int)
}

/// Whether text `a` sorts before text `b` character by character (`a < b` on strings).
pub open spec fn text_before(a: Seq<char>, b: Seq<char>) -> bool {
    (exists|i: int| #[trigger] first_difference_at(a, b, i)) || (a.len() < b.len() && a == b.take(
        a.len() as int,
    ))
}

/// The character of a decimal digit is `'0'` shifted by the digit.
proof fn lemma_digit_char_code(x: int)
    requires
        0 <= x <= 9,
    ensures
        digit_char(x) as int == '0' as int + x,
{
}

/// Four-digit zero-padded rendering of a number below 10000.
proof fn lemma_pad4(y: int)
    requires
        0 <= y <= 9999,
    ensures
        zero_pad(decimal(y as nat), 4) == seq![
            digit_char(y / 1000),
            digit_char((y / 100) % 10),
            digit_char((y / 10) % 10),
            digit_char(y % 10),
        ],
{
    reveal_with_fuel(decimal, 5);
    assert(zero_pad(decimal(y as nat), 4) =~= seq![
        digit_char(y / 1000),
        digit_char((y / 100) % 10),
        digit_char((y / 10) % 10),
        digit_char(y % 10),
    ]);
}

/// Two-digit zero-padded rendering of a number below 100.
proof fn lemma_pad2(x: int)
    requires
        0 <= x <= 99,
    ensures
        zero_pad(decimal(x as nat), 2) == seq![digit_char(x / 10), digit_char(x % 10)],
{
    reveal_with_fuel(decimal, 3);
    assert(zero_pad(decimal(x as nat), 2) =~= seq![digit_char(x / 10), digit_char(x % 10)]);
}

/// A number below 10000 is the sum of its four decimal digits by place.
proof fn lemma_four_digits(a: int)
    requires
        0 <= a <= 9999,
    ensures
        a == 1000 * (a / 1000) + 100 * ((a / 100) % 10) + 10 * ((a / 10) % 10) + a % 10,
        0 <= a / 1000 <= 9,
        0 <= (a / 100) % 10 <= 9,
        0 <= (a / 10) % 10 <= 9,
        0 <= a % 10 <= 9,
{
    assert(a / 100 == 10 * (a / 1000) + (a / 100) % 10);
    assert(a / 10 == 10 * (a / 100) + (a / 10) % 10);
}

/// Of two numbers below 10000, the smaller has the smaller four-digit text.
proof fn lemma_pad4_order(a: int, b: int)
    requires
        0 <= a < b <= 9999,
    ensures
        exists|i: int|
            0 <= i < 4 && #[trigger] first_difference_at(zero_pad(decimal(a as nat), 4), zero_pad(decimal(b as nat), 4), i),
{
    lemma_pad4(a);
    lemma_pad4(b);
    lemma_four_digits(a);
    lemma_four_digits(b);
    let sa = zero_pad(decimal(a as nat), 4);
    let sb = zero_pad(decimal(b as nat), 4);
    lemma_digit_char_code(a / 1000);
    lemma_digit_char_code(b / 1000);
    lemma_digit_char_code((a / 100) % 10);
    lemma_digit_char_code((b / 100) % 10);
    lemma_digit_char_code((a / 10) % 10);
    lemma_digit_char_code((b / 10) % 10);
    lemma_digit_char_code(a % 10);
    lemma_digit_char_code(b % 10);
    if a / 1000 != b / 1000 {
        assert(sa.take(0) =~= sb.take(0));
        assert(first_difference_at(sa, sb, 0));
    } else if (a / 100) % 10 != (b / 100) % 10 {
        assert(sa.take(1) =~= sb.take(1));
        assert(first_difference_at(sa, sb, 1));
    } else if (a / 10) % 10 != (b / 10) % 10 {
        assert(sa.take(2) =~= sb.take(2));
        assert(first_difference_at(sa, sb, 2));
    } else {
        assert(sa.take(3) =~= sb.take(3));
        assert(first_difference_at(sa, sb, 3));
    }
}

/// Of two numbers below 100, the smaller has the smaller two-digit text.
proof fn lemma_pad2_order(a: int, b: int)
    requires
        0 <= a < b <= 99,
    ensures
        exists|i: int|
            0 <= i < 2 && #[trigger] first_difference_at(zero_pad(decimal(a as nat), 2), zero_pad(decimal(b as nat), 2), i),
{
    lemma_pad2(a);
    lemma_pad2(b);
    let sa = zero_pad(decimal(a as nat), 2);
    let sb = zero_pad(decimal(b as nat), 2);
    lemma_digit_char_code(a / 10);
    lemma_digit_char_code(b / 10);
    lemma_digit_char_code(a % 10);
    lemma_digit_char_code(b % 10);
    if a / 10 != b / 10 {
        assert(sa.take(0) =~= sb.take(0));
        assert(first_difference_at(sa, sb, 0));
    } else {
        assert(sa.take(1) =~= sb.take(1));
        assert(first_difference_at(sa, sb, 1));
    }
}

/// A first difference stays one behind a common prefix, whatever follows.
proof fn lemma_first_difference_in_context(
    p: Seq<char>,
    a: Seq<char>,
    b: Seq<char>,
    q1: Seq<char>,
    q2: Seq<char>,
    j: int,
)
    requires
        first_difference_at(a, b, j),
    ensures
        first_difference_at(p + a + q1, p + b + q2, p.len() + j),
{
    let k = p.len() + j;
    assert((p + a + q1).take(k) =~= p + a.take(j));
    assert((p + b + q2).take(k) =~= p + b.take(j));
}

/// Of two valid dates up to the year 9999, the earlier has the `YYYY-MM-DD`
/// text that sorts first.
#[verifier::spinoff_prover]
proof fn lemma_ymd_text_order(y1: nat, m1: nat, d1: nat, y2: nat, m2: nat, d2: nat)
    requires
        valid_date(y1 as int, m1 as int, d1 as int),
        valid_date(y2 as int, m2 as int, d2 as int),
        y1 <= 9999,
        y2 <= 9999,
        date_before(y1 as int, m1 as int, d1 as int, y2 as int, m2 as int, d2 as int),
    ensures
        text_before(ymd_text(y1, m1, d1), ymd_text(y2, m2, d2)),
{
    let t1 = ymd_text(y1, m1, d1);
    let t2 = ymd_text(y2, m2, d2);
    let ya = zero_pad(decimal(y1), 4);
    let yb = zero_pad(decimal(y2), 4);
    let ma = zero_pad(decimal(m1), 2);
    let mb = zero_pad(decimal(m2), 2);
    let da = zero_pad(decimal(d1), 2);
    let db = zero_pad(decimal(d2), 2);
    let dash = seq!['-'];
    if y1 < y2 {
        lemma_pad4_order(y1 as int, y2 as int);
        let i = choose|i: int| 0 <= i < 4 && #[trigger] first_difference_at(ya, yb, i);
        lemma_first_difference_in_context(seq![], ya, yb, dash + ma + dash + da, dash + mb + dash + db, i);
        assert(t1 =~= seq![] + ya + (dash + ma + dash + da));
        assert(t2 =~= seq![] + yb + (dash + mb + dash + db));
        assert(first_difference_at(t1, t2, i));
    } else if m1 < m2 {
        lemma_pad2_order(m1 as int, m2 as int);
        let j = choose|j: int| 0 <= j < 2 && #[trigger] first_difference_at(ma, mb, j);
        lemma_first_difference_in_context(ya + dash, ma, mb, dash + da, dash + db, j);
        assert(t1 =~= (ya + dash) + ma + (dash + da));
        assert(t2 =~= (ya + dash) + mb + (dash + db));
        lemma_pad4(y1 as int);
        assert(first_difference_at(t1, t2, 5 + j));
    } else {
        lemma_pad2_order(d1 as int, d2 as int);
        let j = choose|j: int| 0 <= j < 2 && #[trigger] first_difference_at(da, db, j);
        lemma_first_difference_in_context(ya + dash + ma + dash, da, db, seq![], seq![], j);
        assert(t1 =~= (ya + dash + ma + dash) + da + seq![]);
        assert(t2 =~= (ya + dash + ma + dash) + db + seq![]);
        lemma_pad4(y1 as int);
        lemma_pad2(m1 as int);
        assert(first_difference_at(t1, t2, 8 + j));
    }
}

/// The last day number whose date, 9999-12-31, has a four-digit year.
pub const LAST_FOUR_DIGIT_YEAR_DAY: u64 = 2_932_896;

/// A valid date whose day number is at most 9999-12-31's has a year of at most 9999.
proof fn lemma_four_digit_year(y: int, m: int, d: int)
    requires
        valid_date(y, m, d),
        days_from_civil(y, m, d) <= LAST_FOUR_DIGIT_YEAR_DAY,
    ensures
        y <= 9999,
{
    if y >= 10000 {
        lemma_day_of_year(y, m, d);
        lemma_year_start_mono(10000, y);
        lemma_days_from_civil_split(10000, 1, 1);
    }
}

/// The text of a valid date with a year of at most 9999 has ten characters, with
/// dashes after the year and the month.
proof fn lemma_ymd_text_shape(y: nat, m: nat, d: nat)
    requires
        valid_date(y as int, m as int, d as int),
        y <= 9999,
    ensures
        ymd_text(y, m, d).len() == 10 && ymd_text(y, m, d)[4] == '-' && ymd_text(y, m, d)[7] == '-',
{
    lemma_pad4(y as int);
    lemma_pad2(m as int);
    lemma_pad2(d as int);
}

/// A day has one date text: two texts of the same day are equal.
pub proof fn lemma_day_text_unique(t1: Seq<char>, t2: Seq<char>, n: nat)
    requires
        is_date_text_of_day(t1, n),
        is_date_text_of_day(t2, n),
    ensures
        t1 == t2,
{
    let (y1, m1, d1) = choose|y: nat, m: nat, d: nat|
        valid_date(y as int, m as int, d as int) && days_from_civil(y as int, m as int, d as int) == n as int
            && t1 == ymd_text(y, m, d);
    let (y2, m2, d2) = choose|y: nat, m: nat, d: nat|
        valid_date(y as int, m as int, d as int) && days_from_civil(y as int, m as int, d as int) == n as int
            && t2 == ymd_text(y, m, d);
    lemma_day_determines_date(y1 as int, m1 as int, d1 as int, y2 as int, m2 as int, d2 as int);
}

/// The text of the day after `n` is the text of the calendar day after the date of `n`.
pub proof fn lemma_next_day_text(t1: Seq<char>, t2: Seq<char>, n: nat)
    requires
        is_date_text_of_day(t1, n),
        is_date_text_of_day(t2, n + 1),
    ensures
        exists|y: nat, m: nat, d: nat, y2: nat, m2: nat, d2: nat|
            #![trigger ymd_text(y, m, d), ymd_text(y2, m2, d2)]
            valid_date(y as int, m as int, d as int) && t1 == ymd_text(y, m, d) && next_date(y as int, m as int, d as int)
                == (y2 as int, m2 as int, d2 as int) && t2 == ymd_text(y2, m2, d2),
{
    let (y1, m1, d1) = choose|y: nat, m: nat, d: nat|
        valid_date(y as int, m as int, d as int) && days_from_civil(y as int, m as int, d as int) == n as int
            && t1 == ymd_text(y, m, d);
    let (y2, m2, d2) = choose|y: nat, m: nat, d: nat|
        valid_date(y as int, m as int, d as int) && days_from_civil(y as int, m as int, d as int) == n + 1
            && t2 == ymd_text(y, m, d);
    let nx = next_date(y1 as int, m1 as int, d1 as int);
    lemma_next_date_next_day(y1 as int, m1 as int, d1 as int);
    lemma_day_determines_date(nx.0, nx.1, nx.2, y2 as int, m2 as int, d2 as int);
    assert(valid_date(y1 as int, m1 as int, d1 as int) && t1 == ymd_text(y1, m1, d1) && next_date(
        y1 as int,
        m1 as int,
        d1 as int,
    ) == (y2 as int, m2 as int, d2 as int) && t2 == ymd_text(y2, m2, d2));
}

/// Date texts follow the order of their days, up to 9999-12-31: the text of an
/// earlier day sorts first, and each text is `YYYY-MM-DD` with ten characters.
pub proof fn lemma_day_texts_ordered(t1: Seq<char>, t2: Seq<char>, n1: nat, n2: nat)
    requires
        is_date_text_of_day(t1, n1),
        is_date_text_of_day(t2, n2),
        n1 < n2,
        n2 <= LAST_FOUR_DIGIT_YEAR_DAY,
    ensures
        text_before(t1, t2),
        t1.len() == 10 && t1[4] == '-' && t1[7] == '-',
        t2.len() == 10 && t2[4] == '-' && t2[7] == '-',
{
    let (y1, m1, d1) = choose|y: nat, m: nat, d: nat|
        valid_date(y as int, m as int, d as int) && days_from_civil(y as int, m as int, d as int) == n1 as int
            && t1 == ymd_text(y, m, d);
    let (y2, m2, d2) = choose|y: nat, m: nat, d: nat|
        valid_date(y as int, m as int, d as int) && days_from_civil(y as int, m as int, d as int) == n2 as int
            && t2 == ymd_text(y, m, d);
    lemma_earlier_day_earlier_date(y1 as int, m1 as int, d1 as int, y2 as int, m2 as int, d2 as int);
    lemma_four_digit_year(y2 as int, m2 as int, d2 as int);
    lemma_ymd_text_order(y1, m1, d1, y2, m2, d2);
    lemma_ymd_text_shape(y1, m1, d1);
    lemma_ymd_text_shape(y2, m2, d2);
}

// ---------------------------------------------------------------------------
// Release-age cooldown
// ---------------------------------------------------------------------------

/// The cooldown in days for a `LUNA_MIN_RELEASE_AGE` value: a positive integer
/// overrides the default of 14.
pub open spec fn min_release_age_days_spec(var: Option<Seq<char>>) -> u64 {
    match var {
        Some(v) => match parse_u64(v) {
            Some(d) => if d > 0 { d } else { MIN_RELEASE_AGE_DAYS },
            None => MIN_RELEASE_AGE_DAYS,
        },
        None => MIN_RELEASE_AGE_DAYS,
    }
}

/// A positive `LUNA_MIN_RELEASE_AGE` is used as given, whatever its size; without
/// the variable the cooldown is 14 days.
pub proof fn lemma_positive_override_used(d: u64)
    requires
        d > 0,
    ensures
        min_release_age_days_spec(Some(decimal(d as nat))) == d,
        min_release_age_days_spec(None) == 14,
{
    crate::num::lemma_parse_decimal(d);
}

/// Minimum release age in days for the value of `LUNA_MIN_RELEASE_AGE`, if set.
pub fn min_release_age_days(var: Option<&str>) -> (r: u64)
    ensures
        r == min_release_age_days_spec(
            match var {
                Some(v) => Some(v@),
                None => None,
            },
        ),
{
    match var {
        Some(v) => {
            let cs = crate::text::chars_of(v);
            match crate::num::parse_u64_exec(cs.as_slice()) {
                Some(d) => if d > 0 { d } else { MIN_RELEASE_AGE_DAYS },
                None => MIN_RELEASE_AGE_DAYS,
            }
        },
        None => MIN_RELEASE_AGE_DAYS,
    }
}

/// Minimum release age in seconds (for Bun `--minimum-release-age`).
pub fn min_release_age_secs(days: u64) -> (r: u64)
    requires
        days * SECONDS_PER_DAY <= u64::MAX,
    ensures
        r == days * SECONDS_PER_DAY,
{
    days * SECONDS_PER_DAY
}

/// Bun CLI flag for the minimum release age: `--minimum-release-age=<seconds>`.
pub fn bun_min_release_age_arg(days: u64) -> (r: String)
    requires
        days * SECONDS_PER_DAY <= u64::MAX,
    ensures
        r@ == "--minimum-release-age="@ + decimal((days * SECONDS_PER_DAY) as nat),
{
    let mut r = crate::text::string_from("--minimum-release-age=");
    crate::num::push_decimal(&mut r, min_release_age_secs(days));
    r
}

/// The day (since 1970-01-01) of the cutoff instant `now_secs - min_age_secs`,
/// floored at the epoch.
pub open spec fn cutoff_day(now_secs: u64, min_age_secs: u64) -> nat {
    if now_secs >= min_age_secs {
        ((now_secs - min_age_secs) / (SECONDS_PER_DAY as int)) as nat
    } else {
        0
    }
}

/// `YYYY-MM-DD` text of some valid date `days` days after 1970-01-01.
pub open spec fn is_date_text_of_day(t: Seq<char>, days: nat) -> bool {
    exists|y: nat, m: nat, d: nat|
        valid_date(y as int, m as int, d as int) && days_from_civil(y as int, m as int, d as int)
            == days as int && t == ymd_text(y, m, d)
}

/// The uv `--exclude-newer` cutoff date at the instant `now_secs` (seconds since
/// the epoch): packages newer than `min_age_secs` are skipped.
pub fn exclude_newer_date_at(now_secs: u64, min_age_secs: u64) -> (r: String)
    ensures
        is_date_text_of_day(r@, cutoff_day(now_secs, min_age_secs)),
{
    let target = if now_secs >= min_age_secs { now_secs - min_age_secs } else { 0 };
    format_ymd_from_unix_days(target / SECONDS_PER_DAY)
}

/// Seconds since the epoch according to the system clock (`SystemTime::now`),
/// 0 when the clock reads before the epoch. Nothing is promised of the value.
#[verifier::external_body]
fn unix_now_secs() -> u64 {
    std::time::SystemTime::now().duration_since(std::time::UNIX_EPOCH).unwrap_or_default().as_secs()
}

/// `YYYY-MM-DD` cutoff for uv `--exclude-newer`: today minus the cooldown.
pub fn exclude_newer_date(days: u64) -> (r: String)
    requires
        days * SECONDS_PER_DAY <= u64::MAX,
    ensures
        exists|now: u64| #[trigger] is_date_text_of_day(r@, cutoff_day(now, (days * SECONDS_PER_DAY) as u64)),
{
    let now = unix_now_secs();
    let r = exclude_newer_date_at(now, min_release_age_secs(days));
    assert(is_date_text_of_day(r@, cutoff_day(now, (days * SECONDS_PER_DAY) as u64)));
    r
}

/// Extra args for `uv lock --upgrade` to enforce the release-age cooldown.
pub fn uv_exclude_newer_args(days: u64) -> (r: Vec<String>)
    requires
        days * SECONDS_PER_DAY <= u64::MAX,
    ensures
        r@.len() == 2,
        r@[0]@ == "--exclude-newer"@,
        exists|now: u64| #[trigger] is_date_text_of_day(r@[1]@, cutoff_day(now, (days * SECONDS_PER_DAY) as u64)),
{
    let mut r: Vec<String> = Vec::new();
    r.push(crate::text::string_from("--exclude-newer"));
    let d = exclude_newer_date(days);
    let ghost dv = d@;
    r.push(d);
    assert(r@[1]@ == dv);
    r
}

// ---------------------------------------------------------------------------
// Socket Firewall
// ---------------------------------------------------------------------------

/// Package managers Socket Firewall Free can wrap.
pub open spec fn sfw_supported(program: Seq<char>) -> bool {
    ||| program == "npm"@
    ||| program == "yarn"@
    ||| program == "pnpm"@
    ||| program == "pip"@
    ||| program == "uv"@
    ||| program == "cargo"@
}

/// Whether Socket Firewall Free can wrap `program`.
pub fn is_sfw_supported(program: &str) -> (r: bool)
    ensures
        r == sfw_supported(program@),
{
    crate::text::str_eq(program, "npm") || crate::text::str_eq(program, "yarn")
        || crate::text::str_eq(program, "pnpm") || crate::text::str_eq(program, "pip")
        || crate::text::str_eq(program, "uv") || crate::text::str_eq(program, "cargo")
}

/// Whether the user requested Socket Firewall via `--firewall` or `LUNA_FIREWALL`.
pub fn firewall_requested(global: &crate::cli::GlobalArgs) -> (r: bool)
    ensures
        r == global.firewall,
{
    global.firewall
}

/// A copy of a list of strings.
pub fn clone_strings(v: &[String]) -> (r: Vec<String>)
    ensures
        views(r@) == views(v@),
{
    let mut r: Vec<String> = Vec::new();
    let mut i: usize = 0;
    while i < v.len()
        invariant
            i <= v@.len(),
            views(r@) == views(v@.take(i as int)),
        decreases v@.len() - i,
    {
        let ghost old_r = r@;
        let c = v[i].clone();
        r.push(c);
        proof {
            assert(views(r@) =~= views(old_r).push(v@[i as int]@));
            assert(views(v@.take(i + 1)) =~= views(v@.take(i as int)).push(v@[i as int]@));
        }
        i = i + 1;
    }
    proof {
        assert(v@.take(v@.len() as int) =~= v@);
    }
    r
}

/// When `active` and `program` is supported, the command becomes
/// `sfw <program> <args...>`; otherwise it is unchanged.
pub fn wrap(program: &str, args: &[String], active: bool) -> (r: (String, Vec<String>))
    ensures
        !active || !sfw_supported(program@) ==> r.0@ == program@ && views(r.1@) == views(args@),
        active && sfw_supported(program@) ==> r.0@ == "sfw"@ && views(r.1@) == seq![program@]
            + views(args@),
{
    if !active || !is_sfw_supported(program) {
        return (crate::text::string_from(program), clone_strings(args));
    }
    let mut wrapped: Vec<String> = Vec::new();
    wrapped.push(crate::text::string_from(program));
    let mut i: usize = 0;
    while i < args.len()
        invariant
            i <= args@.len(),
            views(wrapped@) == seq![program@] + views(args@.take(i as int)),
        decreases args@.len() - i,
    {
        let ghost old_w = wrapped@;
        let c = args[i].clone();
        wrapped.push(c);
        proof {
            assert(views(wrapped@) =~= views(old_w).push(args@[i as int]@));
            assert(views(args@.take(i + 1)) =~= views(args@.take(i as int)).push(args@[i as int]@));
            assert(views(wrapped@) =~= seq![program@] + views(args@.take(i + 1)));
        }
        i = i + 1;
    }
    proof {
        assert(args@.take(args@.len() as int) =~= args@);
    }
    (crate::text::string_from("sfw"), wrapped)
}


/// Whether the Socket Firewall wraps package-manager commands, and whether the
/// user is warned that it is missing.
pub struct FirewallResolution {
    pub active: bool,
    pub warn_missing: bool,
}

/// Resolve the firewall: active when requested and `sfw` is available; when it
/// was requested but is missing, warn once (unless quiet) and go on without it.
pub fn resolve_firewall_decision(requested: bool, available: bool, quiet: bool, already_warned: bool) -> (r:
    FirewallResolution)
    ensures
        r.active == (requested && available),
        r.warn_missing == (requested && !available && !quiet && !already_warned),
{
    if !requested {
        return FirewallResolution { active: false, warn_missing: false };
    }
    if available {
        return FirewallResolution { active: true, warn_missing: false };
    }
    FirewallResolution { active: false, warn_missing: !quiet && !already_warned }
}


/// Bun and Go commands are never wrapped with the firewall: only the package
/// managers Socket Firewall supports are.
pub proof fn lemma_bun_and_go_never_wrapped()
    ensures
        !sfw_supported("bun"@),
        !sfw_supported("go"@),
{
    reveal_strlit("bun");
    reveal_strlit("go");
    reveal_strlit("npm");
    reveal_strlit("yarn");
    reveal_strlit("pnpm");
    reveal_strlit("pip");
    reveal_strlit("uv");
    reveal_strlit("cargo");
    assert("bun"@[0] == 'b' && "go"@[0] == 'g');
    assert("uv"@[0] == 'u' && "pip"@[0] == 'p' && "npm"@[0] == 'n' && "cargo"@[0] == 'c');
    assert("pnpm"@.len() == 4 && "yarn"@.len() == 4 && "npm"@.len() == 3 && "pip"@.len() == 3);
}

} // verus!
