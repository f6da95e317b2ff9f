//! Rules of the cache of files generated for clipboard drags: their names,
//! when a cache directory has expired, and the cache's size budget.

use vstd::prelude::*;
use vstd::string::StringExecFns;
use crate::text::{chars_of, decimal, digit_char, extend_chars, is_ascii_hexdigit, lower_seq, push_decimal, string_from_chars};

verus! {

/// How long generated files are kept after they were offered.
pub const RETENTION_SECS: u64 = 24 * 60 * 60;

/// Most bytes the cache may hold.
pub const MAX_CACHE_BYTES: u64 = 512 * 1024 * 1024;

pub open spec fn file_name_spec(stamp: Seq<char>, index: nat, extension: Seq<char>) -> Seq<char> {
    "Clipboard-"@ + stamp + seq!['-'] + decimal(index + 1) + seq!['.'] + extension
}

/// Name of the `index`-th generated file (counted from zero) of an export
/// made at `stamp`.
pub fn export_file_name(stamp: &str, index: usize, extension: &str) -> (s: String)
    requires
        index < u64::MAX,
    ensures
        s@ == file_name_spec(stamp@, index as nat, extension@),
{
    let mut v = chars_of("Clipboard-");
    extend_chars(&mut v, &chars_of(stamp));
    v.push('-');
    push_decimal(&mut v, index as u64 + 1);
    v.push('.');
    extend_chars(&mut v, &chars_of(extension));
    let ghost expected = file_name_spec(stamp@, index as nat, extension@);
    assert(v@ =~= expected);
    string_from_chars(&v)
}

/// Name under which the `index`-th file is written before it is renamed.
pub fn part_file_name(index: usize) -> (s: String)
    requires
        index < u64::MAX,
    ensures
        s@ == decimal(index as nat + 1) + ".part"@,
{
    let mut v: Vec<char> = Vec::new();
    push_decimal(&mut v, index as u64 + 1);
    extend_chars(&mut v, &chars_of(".part"));
    assert(v@ =~= decimal(index as nat + 1) + ".part"@);
    string_from_chars(&v)
}

pub open spec fn is_digit(c: char) -> bool {
    '0' <= c && c <= '9'
}

proof fn lemma_decimal_digits(n: nat)
    ensures
        decimal(n).len() >= 1,
        n >= 10 ==> decimal(n).len() >= 2,
        forall|i: int| 0 <= i < decimal(n).len() ==> is_digit(#[trigger] decimal(n)[i]),
    decreases n,
{
    if n >= 10 {
        lemma_decimal_digits(n / 10);
        assert forall|i: int| 0 <= i < decimal(n).len() implies is_digit(#[trigger] decimal(n)[i]) by {
            if i < decimal(n / 10).len() {
                assert(decimal(n)[i] == decimal(n / 10)[i]);
            } else {
                assert(decimal(n)[i] == digit_char(n % 10));
                assert(((n % 10 + 48) as u8) as char == digit_char(n % 10));
            }
        }
    } else {
        assert(decimal(n)[0] == digit_char(n));
    }
}

proof fn lemma_digit_char_injective(a: nat, b: nat)
    requires
        a < 10,
        b < 10,
        digit_char(a) == digit_char(b),
    ensures
        a == b,
{
    assert(digit_char(a) as u32 == a + 48);
    assert(digit_char(b) as u32 == b + 48);
}

/// Different numbers are written differently.
pub proof fn lemma_decimal_injective(a: nat, b: nat)
    requires
        decimal(a) == decimal(b),
    ensures
        a == b,
    decreases a,
{
    lemma_decimal_digits(a);
    lemma_decimal_digits(b);
    if a >= 10 && b >= 10 {
        assert(decimal(a).last() == digit_char(a % 10));
        assert(decimal(b).last() == digit_char(b % 10));
        lemma_digit_char_injective(a % 10, b % 10);
        assert(decimal(a / 10) =~= decimal(a).drop_last());
        assert(decimal(b / 10) =~= decimal(b).drop_last());
        lemma_decimal_injective(a / 10, b / 10);
    } else if a < 10 && b < 10 {
        assert(decimal(a)[0] == digit_char(a));
        assert(decimal(b)[0] == digit_char(b));
        lemma_digit_char_injective(a, b);
    }
}

/// The generated files of one export have distinct names, whatever their
/// extensions.
pub proof fn export_file_names_are_distinct(stamp: Seq<char>, i: nat, j: nat, e1: Seq<char>, e2: Seq<char>)
    requires
        i != j,
    ensures
        file_name_spec(stamp, i, e1) != file_name_spec(stamp, j, e2),
{
    let p = "Clipboard-"@ + stamp + seq!['-'];
    let d1 = decimal(i + 1);
    let d2 = decimal(j + 1);
    lemma_decimal_digits(i + 1);
    lemma_decimal_digits(j + 1);
    let x = file_name_spec(stamp, i, e1);
    let y = file_name_spec(stamp, j, e2);
    assert(x =~= p + d1 + seq!['.'] + e1);
    assert(y =~= p + d2 + seq!['.'] + e2);
    if x == y {
        if d1.len() < d2.len() {
            let k = (p.len() + d1.len()) as int;
            assert(x[k] == '.');
            assert(y[k] == d2[k - p.len()]);
            assert(is_digit(d2[k - p.len()]));
        } else if d2.len() < d1.len() {
            let k = (p.len() + d2.len()) as int;
            assert(y[k] == '.');
            assert(x[k] == d1[k - p.len()]);
            assert(is_digit(d1[k - p.len()]));
        } else {
            assert(d1 =~= x.subrange(p.len() as int, (p.len() + d1.len()) as int));
            assert(d2 =~= y.subrange(p.len() as int, (p.len() + d2.len()) as int));
            lemma_decimal_injective(i + 1, j + 1);
        }
    }
}

/// Whether a cache directory has expired at `now_secs`: by its expiry
/// marker, or, when the marker is missing or unreadable, when it is older
/// than the retention.
pub fn is_expired(marker: Option<u64>, age_secs: Option<u64>, now_secs: u64) -> (b: bool)
    ensures
        b == match marker {
            Some(expires) => now_secs >= expires,
            None => match age_secs {
                Some(age) => age > RETENTION_SECS,
                None => false,
            },
        },
{
    match marker {
        Some(expires) => now_secs >= expires,
        None => match age_secs {
            Some(age) => age > RETENTION_SECS,
            None => false,
        },
    }
}

/// Whether cleanup deletes a cache directory: expired and not in use.
pub fn should_remove(marker: Option<u64>, age_secs: Option<u64>, now_secs: u64, protected: bool) -> (b: bool)
    ensures
        b == (!protected && is_expired_spec(marker, age_secs, now_secs)),
{
    !protected && is_expired(marker, age_secs, now_secs)
}

pub open spec fn is_expired_spec(marker: Option<u64>, age_secs: Option<u64>, now_secs: u64) -> bool {
    match marker {
        Some(expires) => now_secs >= expires,
        None => match age_secs {
            Some(age) => age > RETENTION_SECS,
            None => false,
        },
    }
}

/// The expiry marker written at `now_secs`: one retention later.
pub fn expiry_marker(now_secs: u64) -> (m: u64)
    ensures
        m == if now_secs as int + RETENTION_SECS as int > u64::MAX as int { u64::MAX as int } else { now_secs + RETENTION_SECS },
{
    now_secs.saturating_add(RETENTION_SECS)
}

/// A directory whose marker was written at `now_secs` has not expired before
/// a full retention has passed.
pub proof fn fresh_exports_are_kept_for_the_retention(now_secs: u64, later: u64, age_secs: Option<u64>)
    requires
        now_secs as int + RETENTION_SECS as int <= u64::MAX as int,
        later < now_secs + RETENTION_SECS,
    ensures
        !is_expired_spec(Some((now_secs + RETENTION_SECS) as u64), age_secs, later),
{
}

/// Refuses an export that would grow the cache beyond its budget.
pub fn check_capacity(used: u64, incoming: u64) -> (r: Result<(), String>)
    ensures
        (used as int + incoming as int > MAX_CACHE_BYTES as int) ==> (r matches Err(e) && e@
            == "clipboard export cache is full; try again after older exports expire"@),
        (used as int + incoming as int <= MAX_CACHE_BYTES as int) ==> r is Ok,
{
    if used.saturating_add(incoming) > MAX_CACHE_BYTES {
        return Err(String::from_str("clipboard export cache is full; try again after older exports expire"));
    }
    Ok(())
}

pub open spec fn digits_value(s: Seq<char>) -> nat
    decreases s.len(),
{
    if s.len() == 0 {
        0
    } else {
        digits_value(s.drop_last()) * 10 + (s.last() as u32 - 48) as nat
    }
}

pub open spec fn all_digits(s: Seq<char>) -> bool {
    forall|i: int| 0 <= i < s.len() ==> is_digit(#[trigger] s[i])
}

/// What `u64::from_str` reads: an optional `+`, then one or more digits
/// whose value fits.
pub open spec fn parse_u64_spec(s: Seq<char>) -> Option<u64> {
    let d = if s.len() > 0 && s[0] == '+' { s.drop_first() } else { s };
    if d.len() > 0 && all_digits(d) && digits_value(d) <= u64::MAX {
        Some(digits_value(d) as u64)
    } else {
        None
    }
}

/// Reads an expiry marker.
pub fn parse_u64(text: &str) -> (r: Option<u64>)
    ensures
        r == parse_u64_spec(text@),
{
    let s = chars_of(text);
    let mut i: usize = 0;
    if s.len() > 0 && s[0] == '+' {
        i = 1;
    }
    let ghost d = if s@.len() > 0 && s@[0] == '+' { s@.drop_first() } else { s@ };
    assert(d =~= s@.skip(i as int));
    if i == s.len() {
        return None;
    }
    let mut value: u64 = 0;
    let mut k: usize = i;
    while k < s.len()
        invariant
            i <= k <= s@.len(),
            s@ == text@,
            d == (if s@.len() > 0 && s@[0] == '+' { s@.drop_first() } else { s@ }),
            d == s@.skip(i as int),
            all_digits(s@.subrange(i as int, k as int)),
            value == digits_value(s@.subrange(i as int, k as int)),
        decreases s@.len() - k,
    {
        let c = s[k];
        let ghost prefix = s@.subrange(i as int, k as int);
        assert(s@.subrange(i as int, k + 1).drop_last() =~= prefix);
        if !('0' <= c && c <= '9') {
            assert(!all_digits(d)) by {
                assert(d[k - i] == c);
            }
            return None;
        }
        let digit = (c as u32 - 48) as u64;
        if value > (u64::MAX - digit) / 10 {
            proof {
                assert(value * 10 + digit > u64::MAX) by (nonlinear_arith)
                    requires
                        value > (u64::MAX - digit) / 10,
                        digit <= 9,
                ;
                assert(d.take(k - i + 1) =~= s@.subrange(i as int, k + 1));
                assert(digits_value(s@.subrange(i as int, k + 1)) == value * 10 + digit);
                if all_digits(d) {
                    lemma_digits_value_grows(d, k - i + 1);
                }
            }
            return None;
        }
        assert(value * 10 + digit <= u64::MAX) by (nonlinear_arith)
            requires
                value <= (u64::MAX - digit) / 10,
                digit <= 9,
        ;
        value = value * 10 + digit;
        k = k + 1;
        assert(all_digits(s@.subrange(i as int, k as int))) by {
            assert forall|j: int| 0 <= j < s@.subrange(i as int, k as int).len() implies is_digit(#[trigger] s@.subrange(i as int, k as int)[j]) by {
                if j < prefix.len() {
                    assert(s@.subrange(i as int, k as int)[j] == prefix[j]);
                }
            }
        }
    }
    assert(s@.subrange(i as int, s@.len() as int) =~= d);
    Some(value)
}

proof fn lemma_digits_value_grows(d: Seq<char>, n: int)
    requires
        0 <= n <= d.len(),
        all_digits(d),
    ensures
        digits_value(d.take(n)) <= digits_value(d),
    decreases d.len() - n,
{
    if n < d.len() {
        lemma_digits_value_grows(d, n + 1);
        assert(d.take(n + 1).drop_last() =~= d.take(n));
        assert(is_digit(d[n]));
    } else {
        assert(d.take(n) =~= d);
    }
}

/// The shape of a local time written as `%Y%m%d-%H%M%S`: the year (at
/// least four digits, with a sign before it outside 0 to 9999), then month
/// and day, a hyphen, and hour, minute and second, each as two digits.
pub open spec fn export_stamp(s: Seq<char>) -> bool {
    let year = s.len() - 11;
    &&& s.len() >= 15
    &&& forall|i: int| 0 <= i < s.len() && i != year + 4 ==> (#[trigger] is_digit(s[i]) || (i == 0 && (s[i] == '+' || s[i] == '-')))
    &&& s[year + 4] == '-'
}

/// `chrono::Local::now().format(format)`: the local time now, written in
/// `format`. Which time comes back depends on the clock and the time zone and
/// is not stated; chrono's formatting code (`write_year`, `write_two`) gives
/// every outcome of the export stamp's format the shape of `export_stamp`.
/// An invalid format makes `to_string` panic, so only that format is
/// admitted.
#[verifier::external_body]
fn local_time_text(format: &str) -> (s: String)
    requires
        format@ == "%Y%m%d-%H%M%S"@,
    ensures
        export_stamp(s@),
{
    chrono::Local::now().format(format).to_string()
}

/// The names of the files generated for one export, one for each extension
/// of `extensions`, all stamped with the local time of the call.
pub fn export_file_names(extensions: &Vec<String>) -> (names: Vec<String>)
    requires
        extensions@.len() < u64::MAX,
    ensures
        names@.len() == extensions@.len(),
        exists|stamp: Seq<char>| export_stamp(stamp) && #[trigger] stamped_names(names@, extensions@, stamp),
{
    let stamp = local_time_text("%Y%m%d-%H%M%S");
    let mut names: Vec<String> = Vec::new();
    let mut i: usize = 0;
    while i < extensions.len()
        invariant
            i <= extensions@.len(),
            extensions@.len() < u64::MAX,
            names@.len() == i,
            forall|k: int| 0 <= k < i ==> (#[trigger] names@[k])@ == file_name_spec(stamp@, k as nat, extensions@[k]@),
        decreases extensions@.len() - i,
    {
        names.push(export_file_name(stamp.as_str(), i, extensions[i].as_str()));
        i = i + 1;
    }
    assert(stamped_names(names@, extensions@, stamp@));
    names
}

/// Whether `names` are the names of files of `extensions` stamped `stamp`.
pub open spec fn stamped_names(names: Seq<String>, extensions: Seq<String>, stamp: Seq<char>) -> bool {
    forall|i: int| 0 <= i < names.len() ==> (#[trigger] names[i])@ == file_name_spec(stamp, i as nat, extensions[i]@)
}

/// Whether `s` is a hyphenated UUID: 36 characters, hexadecimal digits of
/// either case with `-` at positions 8, 13, 18 and 23.
pub open spec fn hyphenated_uuid(s: Seq<char>) -> bool {
    &&& s.len() == 36
    &&& forall|i: int| 0 <= i < 36 ==> if i == 8 || i == 13 || i == 18 || i == 23 {
        #[trigger] s[i] == '-'
    } else {
        is_ascii_hexdigit(s[i])
    }
}

/// Whether `text` reads as a UUID: 32 hexadecimal digits, a hyphenated UUID,
/// one in braces, or one after the prefix `urn:uuid:` in any ASCII case.
pub open spec fn parses_as_uuid(text: Seq<char>) -> bool {
    ||| text.len() == 32 && forall|i: int| 0 <= i < 32 ==> is_ascii_hexdigit(#[trigger] text[i])
    ||| hyphenated_uuid(text)
    ||| text.len() == 38 && text[0] == '{' && text[37] == '}' && hyphenated_uuid(text.subrange(1, 37))
    ||| text.len() == 45 && lower_seq(text.take(9)) == "urn:uuid:"@ && hyphenated_uuid(text.skip(9))
}

/// `uuid::Uuid::parse_str` of the uuid crate: its source accepts exactly
/// the four forms of `parses_as_uuid` (checked on the bytes of `text`; a
/// text with a non-ASCII character is refused either way).
#[verifier::external_body]
fn uuid_parses(text: &str) -> (b: bool)
    ensures
        b == parses_as_uuid(text@),
{
    uuid::Uuid::parse_str(text).is_ok()
}

/// Whether a directory of the cache holds an export: it is a directory and
/// its name is a UUID. Anything else there is left alone.
pub fn is_export_directory(is_directory: bool, name: &str) -> (b: bool)
    ensures
        b == (is_directory && parses_as_uuid(name@)),
{
    is_directory && uuid_parses(name)
}

} // verus!
