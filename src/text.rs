use vstd::prelude::*;
use vstd::utf8::encode_utf8;

verus! {

/// Whether chrono can represent the UTC instant `seconds` after the Unix
/// epoch plus `nanos` nanoseconds (the result of `DateTime::from_timestamp`
/// being `Some`).
pub uninterp spec fn utc_representable(seconds: int, nanos: int) -> bool;

/// Relies on chrono::DateTime::from_timestamp: `Some` exactly for the pairs
/// chrono can represent, never for `nanos >= 2_000_000_000`; a represented
/// instant reports back the same seconds (`timestamp`) and nanoseconds
/// (`timestamp_subsec_nanos`).
#[verifier::external_body]
pub(crate) fn utc_from_unix(seconds: i64, nanos: u32) -> (r: Option<(i64, u32)>)
    ensures
        r is Some <==> utc_representable(seconds as int, nanos as int),
        r is Some ==> r == Some((seconds, nanos)),
        nanos >= 2_000_000_000 ==> r is None,
{
    chrono::DateTime::from_timestamp(seconds, nanos).map(
        |dt| (dt.timestamp(), dt.timestamp_subsec_nanos()),
    )
}

/// Relies on `Default for chrono::DateTime<Utc>`: the Unix epoch.
#[verifier::external_body]
pub(crate) fn utc_default() -> (r: (i64, u32))
    ensures
        r == (0i64, 0u32),
        utc_representable(r.0 as int, r.1 as int),
{
    let dt = chrono::DateTime::<chrono::Utc>::default();
    (dt.timestamp(), dt.timestamp_subsec_nanos())
}

/// Bytes that percent-encoding leaves as they are: ASCII letters and digits
/// and `-`, `.`, `_`, `~`.
pub open spec fn is_unreserved(b: u8) -> bool {
    ||| 48 <= b <= 57
    ||| 65 <= b <= 90
    ||| 97 <= b <= 122
    ||| b == 45
    ||| b == 46
    ||| b == 95
    ||| b == 126
}

/// The upper-case hexadecimal digit for `d < 16`.
pub open spec fn hex_digit(d: u8) -> char {
    seq!['0', '1', '2', '3', '4', '5', '6', '7', '8', '9', 'A', 'B', 'C', 'D', 'E', 'F'][d as int]
}

/// One byte in percent-encoded form.
pub open spec fn percent_byte(b: u8) -> Seq<char> {
    if is_unreserved(b) {
        seq![b as char]
    } else {
        seq!['%', hex_digit(b / 16), hex_digit(b % 16)]
    }
}

/// A byte string in percent-encoded form.
pub open spec fn percent_encoded(b: Seq<u8>) -> Seq<char>
    decreases b.len(),
{
    if b.len() == 0 {
        Seq::empty()
    } else {
        percent_byte(b[0]) + percent_encoded(b.drop_first())
    }
}

/// The UTF-8 bytes of a text.
pub open spec fn encode_utf8_of(s: Seq<char>) -> Seq<u8> {
    encode_utf8(s)
}

/// Relies on urlencoding::encode: each UTF-8 byte of `s` that is not an
/// ASCII letter, digit, `-`, `.`, `_` or `~` becomes `%` and two upper-case
/// hex digits; the others stay as they are.
#[verifier::external_body]
pub(crate) fn url_encode(s: &str) -> (r: String)
    ensures
        r@ == percent_encoded(encode_utf8_of(s@)),
{
    urlencoding::encode(s).into_owned()
}

/// The decimal digit character for `d < 10`.
pub open spec fn digit_char(d: nat) -> char {
    seq!['0', '1', '2', '3', '4', '5', '6', '7', '8', '9'][d as int]
}

/// The decimal digits of `n`, without leading zeros.
pub open spec fn digits_of(n: nat) -> Seq<char>
    decreases n,
{
    if n < 10 {
        seq![digit_char(n)]
    } else {
        digits_of(n / 10) + seq![digit_char(n % 10)]
    }
}

/// `n` written in decimal, with a leading `-` when negative.
pub open spec fn decimal_text(n: int) -> Seq<char> {
    if n < 0 {
        seq!['-'] + digits_of((-n) as nat)
    } else {
        digits_of(n as nat)
    }
}

fn digit_str(d: u64) -> (r: &'static str)
    requires
        d < 10,
    ensures
        r@ == seq![digit_char(d as nat)],
{
    proof {
        reveal_strlit("0");
        reveal_strlit("1");
        reveal_strlit("2");
        reveal_strlit("3");
        reveal_strlit("4");
        reveal_strlit("5");
        reveal_strlit("6");
        reveal_strlit("7");
        reveal_strlit("8");
        reveal_strlit("9");
    }
    match d {
        0 => "0",
        1 => "1",
        2 => "2",
        3 => "3",
        4 => "4",
        5 => "5",
        6 => "6",
        7 => "7",
        8 => "8",
        _ => "9",
    }
}

fn append_digits(out: &mut String, n: u64)
    ensures
        final(out)@ == old(out)@ + digits_of(n as nat),
    decreases n,
{
    if n >= 10 {
        append_digits(out, n / 10);
    }
    out.append(digit_str(n % 10));
    proof {
        if n >= 10 {
            assert(digits_of(n as nat) == digits_of((n / 10) as nat) + seq![digit_char((n % 10) as nat)]);
        }
    }
}

/// `n` in decimal notation.
pub fn decimal_string(n: i64) -> (r: String)
    ensures
        r@ == decimal_text(n as int),
{
    let mut out = String::new();
    if n < 0 {
        proof {
            reveal_strlit("-");
        }
        out.append("-");
        let magnitude: u64 = (0i128 - n as i128) as u64;
        append_digits(&mut out, magnitude);
    } else {
        append_digits(&mut out, n as u64);
    }
    proof {
        if n >= 0 {
            assert(out@ =~= decimal_text(n as int));
        }
    }
    out
}

/// Whether every character of `s` is an ASCII decimal digit.
pub open spec fn all_digits(s: Seq<char>) -> bool {
    forall|i: int| 0 <= i < s.len() ==> '0' <= #[trigger] s[i] <= '9'
}

/// The value of a string of decimal digits.
pub open spec fn digits_value(s: Seq<char>) -> int
    decreases s.len(),
{
    if s.len() == 0 {
        0
    } else {
        digits_value(s.drop_last()) * 10 + (s.last() as int - '0' as int)
    }
}

/// What `str::parse::<i64>` gives for `s`: an optional sign, then one or more
/// ASCII digits and nothing else, with a value that fits.
pub open spec fn parsed_i64(s: Seq<char>) -> Option<i64> {
    let signed = s.len() > 0 && (s[0] == '+' || s[0] == '-');
    let digits = if signed { s.drop_first() } else { s };
    let value = if signed && s[0] == '-' { -digits_value(digits) } else { digits_value(digits) };
    if digits.len() > 0 && all_digits(digits) && i64::MIN <= value <= i64::MAX {
        Some(value as i64)
    } else {
        None
    }
}

/// Relies on std's `<i64 as FromStr>::from_str`, documented to accept an
/// optional `+` or `-` followed by ASCII digits only, and to fail on anything
/// else or on overflow.
#[verifier::external_body]
pub(crate) fn parse_i64(s: &str) -> (r: Option<i64>)
    ensures
        r == parsed_i64(s@),
{
    s.parse::<i64>().ok()
}

/// What http's `StatusCode` displays for `code`: the code and its reason
/// phrase.
pub uninterp spec fn status_display(code: int) -> Seq<char>;

/// Relies on http::StatusCode::from_u16 (which accepts 100..=999) and its
/// `Display` impl.
#[verifier::external_body]
pub(crate) fn status_text(code: u16) -> (r: String)
    requires
        100 <= code <= 999,
    ensures
        r@ == status_display(code as int),
{
    match http::StatusCode::from_u16(code) {
        Ok(status) => status.to_string(),
        Err(e) => e.to_string(),
    }
}

/// The instant that chrono reads from `text` as an RFC 3339 date-time, as
/// Unix seconds and sub-second nanoseconds.
pub uninterp spec fn rfc3339_instant(text: Seq<char>) -> Option<(i64, u32)>;

/// Relies on chrono::DateTime::parse_from_rfc3339, taken to UTC; a parsed
/// instant is one chrono represents.
#[verifier::external_body]
pub(crate) fn parse_rfc3339(s: &str) -> (r: Option<(i64, u32)>)
    ensures
        r == rfc3339_instant(s@),
        r matches Some(p) ==> p.1 < 2_000_000_000 && utc_representable(p.0 as int, p.1 as int),
{
    chrono::DateTime::parse_from_rfc3339(s).ok().map(
        |dt| (dt.timestamp(), dt.timestamp_subsec_nanos()),
    )
}

/// The instant that chrono reads from `text` as an RFC 2822 date-time, as
/// Unix seconds and sub-second nanoseconds.
pub uninterp spec fn rfc2822_instant(text: Seq<char>) -> Option<(i64, u32)>;

/// Relies on chrono::DateTime::parse_from_rfc2822, taken to UTC; a parsed
/// instant is one chrono represents.
#[verifier::external_body]
pub(crate) fn parse_rfc2822(s: &str) -> (r: Option<(i64, u32)>)
    ensures
        r == rfc2822_instant(s@),
        r matches Some(p) ==> p.1 < 2_000_000_000 && utc_representable(p.0 as int, p.1 as int),
{
    chrono::DateTime::parse_from_rfc2822(s).ok().map(
        |dt| (dt.timestamp(), dt.timestamp_subsec_nanos()),
    )
}

/// The RFC 3339 text chrono writes for a UTC instant.
pub uninterp spec fn rfc3339_text(seconds: int, nanos: int) -> Seq<char>;

/// Relies on chrono::DateTime::from_timestamp (to build the instant) and
/// `DateTime::to_rfc3339`.
#[verifier::external_body]
pub(crate) fn format_rfc3339(seconds: i64, nanos: u32) -> (r: String)
    requires
        utc_representable(seconds as int, nanos as int),
    ensures
        r@ == rfc3339_text(seconds as int, nanos as int),
{
    match chrono::DateTime::from_timestamp(seconds, nanos) {
        Some(dt) => dt.to_rfc3339(),
        None => String::new(),
    }
}

} // verus!
