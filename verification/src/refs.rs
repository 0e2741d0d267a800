//! Reference names, branch exclusion and commit dates.

use gix::bstr::ByteSlice;
use vstd::prelude::*;
use vstd::string::StringSliceAdditionalSpecFns;
use vstd::utf8::encode_utf8;

use crate::error::CliError;
use crate::history_walk::text_less;
use crate::terminal_text::{is_control, is_control_spec};
use crate::text::{decimal, decimal_string, digit_char, literal, push_char, push_str};
use crate::text_compare::{chars_of, is_blank, same_text, starts_with_text, trims_to_empty};

verus! {

/// Whether Gitoxide accepts `bytes` as a partial reference name.
pub uninterp spec fn git_partial_ref_name_valid(bytes: Seq<u8>) -> bool;

/// `gix::validate::reference::name_partial`: whether the bytes of `value` form a valid
/// partial reference name. The contract names the result; Gitoxide's rules are not
/// restated here.
#[verifier::external_body]
fn partial_ref_name_valid(value: &str) -> (valid: bool)
    ensures
        valid == git_partial_ref_name_valid(value.spec_bytes()),
{
    gix::validate::reference::name_partial(value.as_bytes().as_bstr()).is_ok()
}

/// The environments that are never offered as feature branches.
pub open spec fn is_known_environment(branch: Seq<char>) -> bool {
    branch == "qa"@ || branch == "staging"@ || branch == "cycle"@
}

/// Branches that are never feature branches of `environment` promoted to `main`.
pub open spec fn is_excluded_branch(branch: Seq<char>, environment: Seq<char>, main: Seq<char>) -> bool {
    ||| branch == "HEAD"@
    ||| branch == environment
    ||| branch == main
    ||| is_known_environment(branch)
    ||| (branch.len() >= 7 && branch.subrange(0, 7) == "backup/"@)
}

/// Whether `branch` is the environment, the main branch, a known environment,
/// `HEAD` or a backup branch.
pub fn excluded_branch(branch: &str, environment: &str, main: &str) -> (excluded: bool)
    ensures
        excluded == is_excluded_branch(branch@, environment@, main@),
{
    proof {
        reveal_strlit("HEAD");
        reveal_strlit("qa");
        reveal_strlit("staging");
        reveal_strlit("cycle");
        reveal_strlit("backup/");
    }
    same_text(branch, "HEAD") || same_text(branch, environment) || same_text(branch, main)
        || same_text(branch, "qa") || same_text(branch, "staging") || same_text(branch, "cycle")
        || starts_with_text(branch, "backup/")
}

/// An ASCII hexadecimal digit of either case.
pub open spec fn is_ascii_hex_byte(b: u8) -> bool {
    (48 <= b <= 57) || (65 <= b <= 70) || (97 <= b <= 102)
}

/// `bytes` contains `%` followed by two hex digits.
pub open spec fn has_percent_encoded_octet(bytes: Seq<u8>) -> bool {
    exists|i: int|
        0 <= i && i + 2 < bytes.len() && #[trigger] bytes[i] == 37u8 && is_ascii_hex_byte(
            bytes[i + 1],
        ) && is_ascii_hex_byte(bytes[i + 2])
}

fn ascii_hex_byte(b: u8) -> (result: bool)
    ensures
        result == is_ascii_hex_byte(b),
{
    (48 <= b && b <= 57) || (65 <= b && b <= 70) || (97 <= b && b <= 102)
}

/// Whether the bytes of `value` contain a percent-encoded octet such as `%2F`.
pub fn contains_percent_encoded_octet(value: &str) -> (result: bool)
    ensures
        result == has_percent_encoded_octet(value.spec_bytes()),
{
    let bytes = value.as_bytes();
    if bytes.len() < 3 {
        return false;
    }
    let mut i: usize = 0;
    while i + 2 < bytes.len()
        invariant
            bytes@ == value.spec_bytes(),
            bytes.len() >= 3,
            i + 2 <= bytes.len(),
            forall|j: int|
                0 <= j < i ==> !(#[trigger] bytes@[j] == 37u8 && is_ascii_hex_byte(bytes@[j + 1])
                    && is_ascii_hex_byte(bytes@[j + 2])),
        decreases bytes.len() - i,
    {
        if bytes[i] == 37 && ascii_hex_byte(bytes[i + 1]) && ascii_hex_byte(bytes[i + 2]) {
            return true;
        }
        i = i + 1;
    }
    false
}

/// `value` has a control character.
pub open spec fn has_control(value: Seq<char>) -> bool {
    exists|i: int| 0 <= i < value.len() && is_control_spec(#[trigger] value[i])
}

fn contains_control(value: &str) -> (result: bool)
    ensures
        result == has_control(value@),
{
    let chars = chars_of(value);
    let mut i: usize = 0;
    while i < chars.len()
        invariant
            chars@ == value@,
            i <= chars.len(),
            forall|j: int| 0 <= j < i ==> !is_control_spec(#[trigger] chars@[j]),
        decreases chars.len() - i,
    {
        if is_control(chars[i]) {
            return true;
        }
        i = i + 1;
    }
    false
}

/// The branch and remote names that restack and promotion accept.
pub open spec fn is_valid_ref_component(value: Seq<char>) -> bool {
    &&& !is_blank(value)
    &&& !(value.len() > 0 && value[0] == '-')
    &&& !has_control(value)
    &&& !has_percent_encoded_octet(encode_utf8(value))
    &&& git_partial_ref_name_valid(encode_utf8(value))
}

/// The message that rejects an invalid `label`.
pub open spec fn ref_component_message(label: Seq<char>) -> Seq<char> {
    label + " must be a non-empty Git branch or remote name"@
}

/// Accepts a branch or remote name that is not blank, does not start with `-`, has no
/// control character or percent-encoded octet, and is a valid partial reference name.
pub fn validate_ref_component(label: &str, value: &str) -> (result: Result<(), CliError>)
    ensures
        result is Ok <==> is_valid_ref_component(value@),
        result matches Err(error) ==> error matches CliError::InvalidInput(message)
            && message@ == ref_component_message(label@),
{
    let chars = chars_of(value);
    let leading_dash = chars.len() > 0 && chars[0] == '-';
    if trims_to_empty(value) || leading_dash || contains_control(value)
        || contains_percent_encoded_octet(value) || !partial_ref_name_valid(value) {
        let mut message = literal(label);
        push_str(&mut message, " must be a non-empty Git branch or remote name");
        return Err(CliError::InvalidInput(message));
    }
    Ok(())
}

/// The Git error that carries a Gitoxide failure's message.
pub fn gitoxide_error(message: &str) -> (error: CliError)
    ensures
        error matches CliError::Git(text) && text@ == message@,
{
    CliError::Git(literal(message))
}

/// The branch ref on the remote that a publication of `branch` updates.
pub open spec fn environment_ref(branch: Seq<char>) -> Seq<char> {
    "refs/heads/"@ + branch
}

/// `refs/heads/<branch>`, the destination of a restack publication.
pub fn remote_environment_ref(branch: &str) -> (reference: String)
    ensures
        reference@ == environment_ref(branch@),
{
    let mut reference = literal("refs/heads/");
    push_str(&mut reference, branch);
    reference
}

// Calendar dates of Unix timestamps (days since 1970-01-01 in the proleptic Gregorian
// calendar), computed era by era.
/// Days since 0000-03-01 of the day that contains second `seconds`.
pub open spec fn shifted_days(seconds: int) -> int {
    seconds / 86400 + 719468
}

pub open spec fn era_of(seconds: int) -> int {
    shifted_days(seconds) / 146097
}

pub open spec fn day_of_era(seconds: int) -> int {
    shifted_days(seconds) - era_of(seconds) * 146097
}

pub open spec fn year_of_era(seconds: int) -> int {
    let doe = day_of_era(seconds);
    (doe - doe / 1460 + doe / 36524 - doe / 146096) / 365
}

pub open spec fn day_of_year(seconds: int) -> int {
    let yoe = year_of_era(seconds);
    day_of_era(seconds) - (365 * yoe + yoe / 4 - yoe / 100)
}

pub open spec fn month_index(seconds: int) -> int {
    (5 * day_of_year(seconds) + 2) / 153
}

/// The day of the month, 1 to 31.
pub open spec fn civil_day(seconds: int) -> int {
    day_of_year(seconds) - (153 * month_index(seconds) + 2) / 5 + 1
}

/// The month, 1 to 12.
pub open spec fn civil_month(seconds: int) -> int {
    let mp = month_index(seconds);
    if mp < 10 {
        mp + 3
    } else {
        mp - 9
    }
}

/// The year; January and February belong to the year after the era-relative one.
pub open spec fn civil_year(seconds: int) -> int {
    year_of_era(seconds) + era_of(seconds) * 400 + if civil_month(seconds) <= 2 {
        1int
    } else {
        0int
    }
}

/// `n` written with at least `width` digits, padded with leading zeros.
pub open spec fn zero_padded(n: nat, width: nat) -> Seq<char> {
    let digits = decimal(n);
    if digits.len() < width {
        Seq::new((width - digits.len()) as nat, |_i: int| '0') + digits
    } else {
        digits
    }
}

/// The year as `{:04}` writes it: four places including the sign.
pub open spec fn year_text(year: int) -> Seq<char> {
    if year >= 0 {
        zero_padded(year as nat, 4)
    } else {
        seq!['-'] + zero_padded((-year) as nat, 3)
    }
}

/// `YYYY-MM-DD` of the day that contains Unix second `seconds`.
pub open spec fn date_text(seconds: int) -> Seq<char> {
    year_text(civil_year(seconds)) + seq!['-'] + zero_padded(civil_month(seconds) as nat, 2)
        + seq!['-'] + zero_padded(civil_day(seconds) as nat, 2)
}

fn push_zero_padded(s: &mut String, n: u64, width: usize)
    requires
        width <= 4,
    ensures
        final(s)@ == old(s)@ + zero_padded(n as nat, width as nat),
{
    let digits = decimal_string(n);
    let count = chars_of(digits.as_str()).len();
    if count < width {
        let mut k: usize = 0;
        while k < width - count
            invariant
                count < width,
                k <= width - count,
                s@ == old(s)@ + Seq::new(k as nat, |_i: int| '0'),
            decreases width - count - k,
        {
            push_char(s, '0');
            k = k + 1;
            proof {
                assert(s@ =~= old(s)@ + Seq::new(k as nat, |_i: int| '0'));
            }
        }
    }
    push_str(s, digits.as_str());
    proof {
        assert(final(s)@ =~= old(s)@ + zero_padded(n as nat, width as nat));
    }
}

proof fn lemma_date_ranges(seconds: int)
    ensures
        0 <= day_of_era(seconds) < 146097,
        0 <= year_of_era(seconds) < 400,
        0 <= day_of_year(seconds) < 366,
        0 <= month_index(seconds) < 12,
        1 <= civil_day(seconds) <= 31,
        1 <= civil_month(seconds) <= 12,
{
    let doe = day_of_era(seconds);
    assert(0 <= doe < 146097);
    let yoe = year_of_era(seconds);
    assert(0 <= yoe < 400) by (nonlinear_arith)
        requires
            0 <= doe < 146097,
            yoe == (doe - doe / 1460 + doe / 36524 - doe / 146096) / 365,
    ;
    let doy = day_of_year(seconds);
    assert(0 <= doy < 366) by (nonlinear_arith)
        requires
            0 <= doe < 146097,
            yoe == (doe - doe / 1460 + doe / 36524 - doe / 146096) / 365,
            doy == doe - (365 * yoe + yoe / 4 - yoe / 100),
    ;
    let mp = month_index(seconds);
    assert(0 <= mp < 12) by (nonlinear_arith)
        requires
            0 <= doy < 366,
            mp == (5 * doy + 2) / 153,
    ;
    assert(1 <= civil_day(seconds) <= 31) by (nonlinear_arith)
        requires
            0 <= doy < 366,
            mp == (5 * doy + 2) / 153,
            civil_day(seconds) == doy - (153 * mp + 2) / 5 + 1,
    ;
}

/// Every date that `unix_date` writes has a month from 1 to 12 and a day from 1 to 31.
pub proof fn lemma_unix_date_fields(seconds: int)
    ensures
        1 <= civil_month(seconds) <= 12,
        1 <= civil_day(seconds) <= 31,
{
    lemma_date_ranges(seconds);
}

/// The `YYYY-MM-DD` date of Unix timestamp `seconds`.
pub fn unix_date(seconds: i64) -> (date: String)
    ensures
        date@ == date_text(seconds as int),
{
    proof {
        lemma_date_ranges(seconds as int);
    }
    let days = match seconds.checked_div_euclid(86400) {
        Some(days) => days,
        None => 0,
    };
    let z = days + 719468;
    let era = match z.checked_div_euclid(146097) {
        Some(era) => era,
        None => 0,
    };
    let doe = (z - era * 146097) as u64;
    let yoe = (doe - doe / 1460 + doe / 36524 - doe / 146096) / 365;
    let doy = doe - (365 * yoe + yoe / 4 - yoe / 100);
    let mp = (5 * doy + 2) / 153;
    let day = doy - (153 * mp + 2) / 5 + 1;
    let month = if mp < 10 {
        mp + 3
    } else {
        mp - 9
    };
    let year = (yoe as i64) + era * 400 + if month <= 2 {
        1i64
    } else {
        0i64
    };
    let mut date = String::new();
    if year >= 0 {
        push_zero_padded(&mut date, year as u64, 4);
    } else {
        push_char(&mut date, '-');
        push_zero_padded(&mut date, (-year) as u64, 3);
    }
    push_char(&mut date, '-');
    push_zero_padded(&mut date, month, 2);
    push_char(&mut date, '-');
    push_zero_padded(&mut date, day, 2);
    proof {
        assert(date@ =~= date_text(seconds as int));
    }
    date
}


/// A date depends only on the UTC day that contains the second.
pub proof fn lemma_unix_date_depends_on_day(seconds: int)
    ensures
        date_text(seconds) == date_text((seconds / 86400) * 86400),
{
    assert(((seconds / 86400) * 86400) / 86400 == seconds / 86400) by (nonlinear_arith);
    assert(shifted_days(seconds) == shifted_days((seconds / 86400) * 86400));
}

#[verifier::rlimit(100)]
proof fn lemma_year_step(doe: int)
    requires
        0 <= doe < 146096,
    ensures
        ({
            let next = doe + 1;
            let y1 = (doe - doe / 1460 + doe / 36524 - doe / 146096) / 365;
            let y2 = (next - next / 1460 + next / 36524 - next / 146096) / 365;
            let d1 = doe - (365 * y1 + y1 / 4 - y1 / 100);
            let d2 = next - (365 * y2 + y2 / 4 - y2 / 100);
            (y2 == y1 && d2 == d1 + 1) || (y2 == y1 + 1 && d2 == 0 && 337 <= d1 && d1 <= 365)
        }),
{
}

proof fn lemma_month_step(d: int)
    requires
        0 <= d < 365,
    ensures
        ({
            let m1 = (5 * d + 2) / 153;
            let m2 = (5 * (d + 1) + 2) / 153;
            let day1 = d - (153 * m1 + 2) / 5 + 1;
            let day2 = (d + 1) - (153 * m2 + 2) / 5 + 1;
            (m2 == m1 && day2 == day1 + 1) || (m2 == m1 + 1 && day2 == 1)
        }),
{
}

/// `(year, month, day)` of second `a` comes strictly before that of second `b`.
pub open spec fn date_before(a: int, b: int) -> bool {
    ||| civil_year(a) < civil_year(b)
    ||| civil_year(a) == civil_year(b) && civil_month(a) < civil_month(b)
    ||| civil_year(a) == civil_year(b) && civil_month(a) == civil_month(b) && civil_day(a) < civil_day(b)
}

/// Seconds `a` and `b` fall on the same date.
pub open spec fn same_date(a: int, b: int) -> bool {
    civil_year(a) == civil_year(b) && civil_month(a) == civil_month(b) && civil_day(a) == civil_day(b)
}

proof fn lemma_same_day_same_date(a: int, b: int)
    requires
        shifted_days(a) == shifted_days(b),
    ensures
        same_date(a, b),
{
}

#[verifier::rlimit(50)]
proof fn lemma_next_day(seconds: int)
    ensures
        date_before(seconds, seconds + 86400),
{
    let next = seconds + 86400;
    assert(shifted_days(next) == shifted_days(seconds) + 1);
    lemma_date_ranges(seconds);
    lemma_date_ranges(next);
    let z = shifted_days(seconds);
    if day_of_era(seconds) == 146096 {
        assert(era_of(next) == era_of(seconds) + 1);
        assert(day_of_era(next) == 0);
        assert(year_of_era(seconds) == 399);
        assert(day_of_year(seconds) == 365);
        assert(month_index(seconds) == 11);
        assert(year_of_era(next) == 0);
        assert(month_index(next) == 0);
    } else {
        assert(era_of(next) == era_of(seconds));
        assert(day_of_era(next) == day_of_era(seconds) + 1);
        lemma_year_step(day_of_era(seconds));
        if year_of_era(next) == year_of_era(seconds) {
            assert(day_of_year(next) == day_of_year(seconds) + 1);
            lemma_month_step(day_of_year(seconds));
        } else {
            assert(day_of_year(next) == 0);
            assert(month_index(seconds) == 11);
            assert(month_index(next) == 0);
        }
    }
}

/// Dates never go back: a later second falls on the same date or a later one, ordered
/// by year, then month, then day.
pub proof fn lemma_unix_date_monotone(earlier: int, later: int)
    requires
        earlier <= later,
    ensures
        same_date(earlier, later) || date_before(earlier, later),
    decreases later / 86400 - earlier / 86400,
{
    if earlier / 86400 == later / 86400 {
        lemma_same_day_same_date(earlier, later);
    } else {
        let start = (earlier / 86400) * 86400;
        let next = start + 86400;
        assert(start / 86400 == earlier / 86400);
        assert(next / 86400 == earlier / 86400 + 1);
        lemma_same_day_same_date(earlier, start);
        lemma_next_day(start);
        lemma_unix_date_monotone(next, later);
    }
}

/// Two texts of one length that agree before position `k` and differ there in order.
proof fn lemma_text_less_at(a: Seq<char>, b: Seq<char>, k: int)
    requires
        a.len() == b.len(),
        0 <= k < a.len(),
        forall|i: int| 0 <= i < k ==> a[i] == b[i],
        (a[k] as u32) < (b[k] as u32),
    ensures
        text_less(a, b),
    decreases k,
{
    if k > 0 {
        assert(a[0] == b[0]);
        assert forall|i: int| 0 <= i < k - 1 implies a.drop_first()[i] == b.drop_first()[i] by {
            assert(a[i + 1] == b[i + 1]);
        }
        lemma_text_less_at(a.drop_first(), b.drop_first(), k - 1);
    } else {
        assert(a[0] != b[0]);
    }
}

proof fn lemma_text_less_extend(p: Seq<char>, q: Seq<char>, x: Seq<char>, y: Seq<char>)
    requires
        p.len() == q.len(),
        text_less(p, q),
    ensures
        text_less(p + x, q + y),
    decreases p.len(),
{
    assert((p + x)[0] == p[0]);
    assert((q + y)[0] == q[0]);
    if p[0] == q[0] {
        assert((p + x).drop_first() =~= p.drop_first() + x);
        assert((q + y).drop_first() =~= q.drop_first() + y);
        lemma_text_less_extend(p.drop_first(), q.drop_first(), x, y);
    }
}

proof fn lemma_text_less_prefix(p: Seq<char>, x: Seq<char>, y: Seq<char>)
    requires
        text_less(x, y),
    ensures
        text_less(p + x, p + y),
    decreases p.len(),
{
    if p.len() == 0 {
        assert(p + x =~= x);
        assert(p + y =~= y);
    } else {
        assert((p + x)[0] == p[0]);
        assert((p + y)[0] == p[0]);
        assert((p + x).drop_first() =~= p.drop_first() + x);
        assert((p + y).drop_first() =~= p.drop_first() + y);
        lemma_text_less_prefix(p.drop_first(), x, y);
    }
}

proof fn lemma_digit_order(d: nat, e: nat)
    requires
        d < e < 10,
    ensures
        (digit_char(d) as u32) < (digit_char(e) as u32),
{
}

proof fn lemma_two_digits(n: nat)
    requires
        n < 100,
    ensures
        zero_padded(n, 2) == seq![digit_char(n / 10), digit_char(n % 10)],
{
    reveal_with_fuel(decimal, 3);
    if n < 10 {
        assert(digit_char(0) == '0');
        assert(zero_padded(n, 2) =~= seq![digit_char(n / 10), digit_char(n % 10)]);
    } else {
        assert(decimal(n / 10) == seq![digit_char(n / 10)]);
        assert(zero_padded(n, 2) =~= seq![digit_char(n / 10), digit_char(n % 10)]);
    }
}

proof fn lemma_four_digits(n: nat)
    requires
        n < 10000,
    ensures
        zero_padded(n, 4) == seq![
            digit_char(n / 1000),
            digit_char((n / 100) % 10),
            digit_char((n / 10) % 10),
            digit_char(n % 10),
        ],
{
    reveal_with_fuel(decimal, 5);
    assert(digit_char(0) == '0');
    let expected = seq![
        digit_char(n / 1000),
        digit_char((n / 100) % 10),
        digit_char((n / 10) % 10),
        digit_char(n % 10),
    ];
    if n < 10 {
        assert(zero_padded(n, 4) =~= expected);
    } else if n < 100 {
        assert(decimal(n / 10) == seq![digit_char(n / 10)]);
        assert(zero_padded(n, 4) =~= expected);
    } else if n < 1000 {
        assert(decimal(n / 100) == seq![digit_char(n / 100)]);
        assert(decimal(n / 10) == seq![digit_char(n / 100), digit_char((n / 10) % 10)]);
        assert(zero_padded(n, 4) =~= expected);
    } else {
        assert(decimal(n / 1000) == seq![digit_char(n / 1000)]);
        assert(decimal(n / 100) == seq![digit_char(n / 1000), digit_char((n / 100) % 10)]);
        assert(decimal(n / 10) == seq![digit_char(n / 1000), digit_char((n / 100) % 10), digit_char((n / 10) % 10)]);
        assert(zero_padded(n, 4) =~= expected);
    }
}

proof fn lemma_two_digit_order(a: nat, b: nat)
    requires
        a < b < 100,
    ensures
        text_less(zero_padded(a, 2), zero_padded(b, 2)),
        zero_padded(a, 2).len() == 2,
        zero_padded(b, 2).len() == 2,
{
    lemma_two_digits(a);
    lemma_two_digits(b);
    let x = zero_padded(a, 2);
    let y = zero_padded(b, 2);
    if a / 10 != b / 10 {
        lemma_digit_order(a / 10, b / 10);
        lemma_text_less_at(x, y, 0);
    } else {
        lemma_digit_order(a % 10, b % 10);
        lemma_text_less_at(x, y, 1);
    }
}

proof fn lemma_four_digit_split(n: nat)
    requires
        n < 10000,
    ensures
        n == 1000 * (n / 1000) + 100 * ((n / 100) % 10) + 10 * ((n / 10) % 10) + n % 10,
        n / 1000 < 10,
{
    let m = n as int;
    vstd::arithmetic::div_mod::lemma_div_denominator(m, 10, 10);
    vstd::arithmetic::div_mod::lemma_div_denominator(m, 100, 10);
    vstd::arithmetic::div_mod::lemma_fundamental_div_mod(m, 10);
    vstd::arithmetic::div_mod::lemma_fundamental_div_mod(m / 10, 10);
    vstd::arithmetic::div_mod::lemma_fundamental_div_mod(m / 100, 10);
    assert(m / 10 == 10 * (m / 100) + (m / 10) % 10);
    assert(m / 100 == 10 * (m / 1000) + (m / 100) % 10);
}

proof fn lemma_four_digit_order(a: nat, b: nat)
    requires
        a < b < 10000,
    ensures
        text_less(zero_padded(a, 4), zero_padded(b, 4)),
        zero_padded(a, 4).len() == 4,
        zero_padded(b, 4).len() == 4,
{
    lemma_four_digits(a);
    lemma_four_digits(b);
    lemma_four_digit_split(a);
    lemma_four_digit_split(b);
    let (a3, a2, a1, a0) = (a / 1000, (a / 100) % 10, (a / 10) % 10, a % 10);
    let (b3, b2, b1, b0) = (b / 1000, (b / 100) % 10, (b / 10) % 10, b % 10);
    let x = zero_padded(a, 4);
    let y = zero_padded(b, 4);
    assert(x == seq![digit_char(a3), digit_char(a2), digit_char(a1), digit_char(a0)]);
    assert(y == seq![digit_char(b3), digit_char(b2), digit_char(b1), digit_char(b0)]);
    if a3 != b3 {
        assert(a3 < b3);
        lemma_digit_order(a3, b3);
        lemma_text_less_at(x, y, 0);
    } else if a2 != b2 {
        assert(a2 < b2);
        lemma_digit_order(a2, b2);
        lemma_text_less_at(x, y, 1);
    } else if a1 != b1 {
        assert(a1 < b1);
        lemma_digit_order(a1, b1);
        lemma_text_less_at(x, y, 2);
    } else {
        assert(a0 < b0);
        lemma_digit_order(a0, b0);
        lemma_text_less_at(x, y, 3);
    }
}

/// `YYYY-MM-DD` of a year, month and day.
pub open spec fn date_parts(year: nat, month: nat, day: nat) -> Seq<char> {
    zero_padded(year, 4) + seq!['-'] + zero_padded(month, 2) + seq!['-'] + zero_padded(day, 2)
}

proof fn lemma_date_parts_order(y1: nat, m1: nat, d1: nat, y2: nat, m2: nat, d2: nat)
    requires
        y1 < 10000,
        y2 < 10000,
        m1 < 100,
        m2 < 100,
        d1 < 100,
        d2 < 100,
        y1 < y2 || (y1 == y2 && m1 < m2) || (y1 == y2 && m1 == m2 && d1 < d2),
    ensures
        text_less(date_parts(y1, m1, d1), date_parts(y2, m2, d2)),
{
    let dash = seq!['-'];
    let text1 = date_parts(y1, m1, d1);
    let text2 = date_parts(y2, m2, d2);
    if y1 < y2 {
        lemma_four_digit_order(y1, y2);
        let rest1 = dash + zero_padded(m1, 2) + dash + zero_padded(d1, 2);
        let rest2 = dash + zero_padded(m2, 2) + dash + zero_padded(d2, 2);
        assert(text1 =~= zero_padded(y1, 4) + rest1);
        assert(text2 =~= zero_padded(y2, 4) + rest2);
        lemma_text_less_extend(zero_padded(y1, 4), zero_padded(y2, 4), rest1, rest2);
    } else if m1 < m2 {
        lemma_two_digit_order(m1, m2);
        let head = zero_padded(y1, 4) + dash;
        let rest1 = dash + zero_padded(d1, 2);
        let rest2 = dash + zero_padded(d2, 2);
        lemma_text_less_extend(zero_padded(m1, 2), zero_padded(m2, 2), rest1, rest2);
        lemma_text_less_prefix(head, zero_padded(m1, 2) + rest1, zero_padded(m2, 2) + rest2);
        assert(text1 =~= head + (zero_padded(m1, 2) + rest1));
        assert(text2 =~= head + (zero_padded(m2, 2) + rest2));
    } else {
        lemma_two_digit_order(d1, d2);
        let head = zero_padded(y1, 4) + dash + zero_padded(m1, 2) + dash;
        lemma_text_less_prefix(head, zero_padded(d1, 2), zero_padded(d2, 2));
        assert(text1 =~= head + zero_padded(d1, 2));
        assert(text2 =~= head + zero_padded(d2, 2));
    }
}

proof fn lemma_date_text_parts(seconds: int)
    requires
        civil_year(seconds) >= 0,
    ensures
        date_text(seconds) == date_parts(
            civil_year(seconds) as nat,
            civil_month(seconds) as nat,
            civil_day(seconds) as nat,
        ),
{
}

/// The first second of 0000-01-01 and the last of 9999-12-31.
pub open spec fn in_four_digit_years(seconds: int) -> bool {
    -62167219200 <= seconds < 253402300800
}

proof fn lemma_four_digit_year_bounds(seconds: int)
    requires
        in_four_digit_years(seconds),
    ensures
        0 <= civil_year(seconds) <= 9999,
{
    assert(civil_year(-62167219200) == 0);
    assert(civil_year(253402300799) == 9999);
    lemma_unix_date_monotone(-62167219200, seconds);
    lemma_unix_date_monotone(seconds, 253402300799);
}

/// Between 0000-01-01 and 9999-12-31 a later second never gets an earlier date: the
/// `YYYY-MM-DD` texts are equal or come in text order.
pub proof fn lemma_unix_date_text_monotone(earlier: int, later: int)
    requires
        in_four_digit_years(earlier),
        in_four_digit_years(later),
        earlier <= later,
    ensures
        date_text(earlier) == date_text(later) || text_less(date_text(earlier), date_text(later)),
{
    lemma_date_ranges(earlier);
    lemma_date_ranges(later);
    lemma_four_digit_year_bounds(earlier);
    lemma_four_digit_year_bounds(later);
    lemma_unix_date_monotone(earlier, later);
    lemma_date_text_parts(earlier);
    lemma_date_text_parts(later);
    if !same_date(earlier, later) {
        lemma_date_parts_order(
            civil_year(earlier) as nat,
            civil_month(earlier) as nat,
            civil_day(earlier) as nat,
            civil_year(later) as nat,
            civil_month(later) as nat,
            civil_day(later) as nat,
        );
    }
}

/// The known environments qa, staging and cycle, `HEAD`, every backup branch, the
/// environment itself and the main branch are excluded, whatever the environment and
/// main branch are; every other branch is kept.
pub proof fn lemma_excluded_branches(branch: Seq<char>, environment: Seq<char>, main: Seq<char>)
    ensures
        is_excluded_branch("qa"@, environment, main),
        is_excluded_branch("staging"@, environment, main),
        is_excluded_branch("cycle"@, environment, main),
        is_excluded_branch("HEAD"@, environment, main),
        is_excluded_branch(environment, environment, main),
        is_excluded_branch(main, environment, main),
        is_excluded_branch("backup/"@ + branch, environment, main),
        (branch != "qa"@ && branch != "staging"@ && branch != "cycle"@ && branch != "HEAD"@
            && branch != environment && branch != main && !"backup/"@.is_prefix_of(branch))
            ==> !is_excluded_branch(branch, environment, main),
{
    reveal_strlit("backup/");
    assert(("backup/"@ + branch).subrange(0, 7) =~= "backup/"@);
    if branch.len() >= 7 && branch.subrange(0, 7) == "backup/"@ {
        assert("backup/"@.is_prefix_of(branch));
    }
}

} // verus!
