//! Trusted contracts for calls into `std` and outside crates.

use vstd::prelude::*;

verus! {

/// `String::push` appends one character to the end of the string.
pub assume_specification[ String::push ](string: &mut String, ch: char)
    ensures
        final(string)@ == old(string)@.push(ch),
;


/// The text that `str::to_uppercase` produces (Unicode upper-case mapping).
pub uninterp spec fn upper_case(s: Seq<char>) -> Seq<char>;

/// Calls `str::to_uppercase`; its result is named by `upper_case`.
#[verifier::external_body]
pub(crate) fn to_upper(s: &str) -> (r: String)
    ensures
        r@ == upper_case(s@),
{
    s.to_uppercase()
}


/// Calls `rand::random` for a `u64` from the thread-local generator. Nothing is
/// stated of the value.
#[verifier::external_body]
pub(crate) fn random_u64() -> (r: u64) {
    rand::random::<u64>()
}


/// The 16 big-endian bytes of a 128-bit value, most significant first.
pub open spec fn be_bytes(v: u128) -> Seq<u8> {
    Seq::new(16, |k: int| ((v as nat / vstd::arithmetic::power2::pow2((8 * (15 - k)) as nat)) % 256) as u8)
}

/// The hyphenated lower-case text of the UUID whose big-endian value is `v`:
/// its 32 hexadecimal digits in groups of 8, 4, 4, 4 and 12, joined by `-`.
pub open spec fn uuid_text_of(v: u128) -> Seq<char> {
    let h = hex_text(be_bytes(v));
    h.subrange(0, 8) + seq!['-'] + h.subrange(8, 12) + seq!['-'] + h.subrange(12, 16) + seq!['-']
        + h.subrange(16, 20) + seq!['-'] + h.subrange(20, 32)
}

/// The shape of a hyphenated lower-case UUID text: 36 characters, `-` at
/// positions 8, 13, 18 and 23, lower-case hexadecimal digits elsewhere.
pub open spec fn is_uuid_text(s: Seq<char>) -> bool {
    &&& s.len() == 36
    &&& forall|i: int|
        0 <= i < 36 ==> if i == 8 || i == 13 || i == 18 || i == 23 {
            s[i] == '-'
        } else {
            ('0' <= #[trigger] s[i] <= '9') || ('a' <= s[i] <= 'f')
        }
}

/// The 128-bit value of a version-4 UUID of the RFC 4122 variant: version digit
/// 4 in bits 76 to 79 and the variant bits `10` in bits 62 and 63.
pub open spec fn uuid_version4(v: u128) -> bool {
    &&& (v as nat / vstd::arithmetic::power2::pow2(76)) % 16 == 4
    &&& (v as nat / vstd::arithmetic::power2::pow2(62)) % 4 == 2
}

/// Calls `Uuid::new_v4` and returns its big-endian value (`as_u128`). The value
/// is random but for the version digit 4 (bits 76 to 79) and the RFC 4122
/// variant `10` (bits 62 and 63), which `new_v4` sets.
#[verifier::external_body]
pub(crate) fn new_uuid() -> (v: u128)
    ensures
        uuid_version4(v),
{
    uuid::Uuid::new_v4().as_u128()
}

/// Calls `ToString::to_string` on `Uuid::from_u128(v)`, whose `Display` writes
/// the hyphenated lower-case hexadecimal form of its big-endian bytes.
#[verifier::external_body]
pub(crate) fn uuid_text(v: u128) -> (s: String)
    ensures
        s@ == uuid_text_of(v),
        is_uuid_text(s@),
{
    uuid::Uuid::from_u128(v).to_string()
}

/// The SHA-256 digest of a byte sequence.
pub uninterp spec fn sha256_of(data: Seq<u8>) -> Seq<u8>;

/// Calls `sha2::Digest::digest` for `Sha256`; the 32-byte digest is named by `sha256_of`.
#[verifier::external_body]
pub(crate) fn sha256(data: &[u8]) -> (d: Vec<u8>)
    ensures
        d@ == sha256_of(data@),
        d@.len() == 32,
{
    <sha2::Sha256 as sha2::Digest>::digest(data).to_vec()
}

/// The lower-case hexadecimal digit of a value below 16.
pub open spec fn hex_digit(v: int) -> char {
    if v < 10 {
        ((v + 48) as u32) as char
    } else {
        ((v + 87) as u32) as char
    }
}

/// Lower-case hexadecimal text of a byte sequence, two digits per byte, high nibble first.
pub open spec fn hex_text(data: Seq<u8>) -> Seq<char>
    decreases data.len(),
{
    if data.len() == 0 {
        Seq::empty()
    } else {
        seq![hex_digit((data[0] / 16) as int), hex_digit((data[0] % 16) as int)] + hex_text(data.drop_first())
    }
}

/// Calls `hex::encode`, which writes each byte as two lower-case hexadecimal
/// digits, high nibble first.
#[verifier::external_body]
pub(crate) fn hex_encode(data: &[u8]) -> (s: String)
    ensures
        s@ == hex_text(data@),
{
    hex::encode(data)
}

/// Reads the clock with `Utc::now` and returns the instant as whole seconds since
/// the Unix epoch and the nanoseconds past them (`timestamp`,
/// `timestamp_subsec_nanos`); the nanoseconds stay below 2 000 000 000.
/// Nothing else is stated of the time it reads.
#[verifier::external_body]
pub(crate) fn utc_now() -> (t: (i64, u32))
    ensures
        t.1 < 2_000_000_000,
{
    let now = chrono::Utc::now();
    (now.timestamp(), now.timestamp_subsec_nanos())
}

/// The instants that `DateTime::<Utc>::from_timestamp` accepts: from
/// -262143-01-01T00:00:00 to 262142-12-31T23:59:59 (chrono's `MIN_UTC` and
/// `MAX_UTC` dates), with nanoseconds below 10^9, or below 2 * 10^9 in the
/// last second of a minute (a leap second).
pub open spec fn instant_in_range(secs: int, nanos: int) -> bool {
    &&& -8_334_601_228_800 <= secs <= 8_210_266_876_799
    &&& 0 <= nanos
    &&& (nanos < 1_000_000_000 || (nanos < 2_000_000_000 && secs % 60 == 59))
}

/// The proleptic Gregorian date (year, month, day) of the day `days` days after
/// 1970-01-01, by 400-year eras of 146 097 days, counting years from March.
pub open spec fn civil_from_days(days: int) -> (int, int, int) {
    let z = days + 719_468;
    let era = z / 146_097;
    let doe = z - era * 146_097;
    let yoe = (doe - doe / 1460 + doe / 36_524 - doe / 146_096) / 365;
    let doy = doe - (365 * yoe + yoe / 4 - yoe / 100);
    let mp = (5 * doy + 2) / 153;
    let day = doy - (153 * mp + 2) / 5 + 1;
    let month = if mp < 10 { mp + 3 } else { mp - 9 };
    let year = yoe + era * 400 + if month <= 2 { 1int } else { 0 };
    (year, month, day)
}

/// A civil date has a month from 1 to 12 and a day from 1 to 31.
pub proof fn lemma_civil_from_days_ranges(days: int)
    ensures
        1 <= civil_from_days(days).1 <= 12,
        1 <= civil_from_days(days).2 <= 31,
{
    let z = days + 719_468;
    let era = z / 146_097;
    let doe = z - era * 146_097;
    assert(0 <= doe < 146_097) by (nonlinear_arith)
        requires era == z / 146_097, doe == z - era * 146_097;
    let yoe = (doe - doe / 1460 + doe / 36_524 - doe / 146_096) / 365;
    assert(0 <= yoe <= 399) by (nonlinear_arith)
        requires 0 <= doe < 146_097, yoe == (doe - doe / 1460 + doe / 36_524 - doe / 146_096) / 365;
    let doy = doe - (365 * yoe + yoe / 4 - yoe / 100);
    assert(0 <= doy <= 365) by (nonlinear_arith)
        requires
            0 <= doe < 146_097,
            yoe == (doe - doe / 1460 + doe / 36_524 - doe / 146_096) / 365,
            doy == doe - (365 * yoe + yoe / 4 - yoe / 100),
    ;
    let mp = (5 * doy + 2) / 153;
    assert(0 <= mp <= 11) by (nonlinear_arith)
        requires 0 <= doy <= 365, mp == (5 * doy + 2) / 153;
    let day = doy - (153 * mp + 2) / 5 + 1;
    assert(1 <= day <= 31) by (nonlinear_arith)
        requires 0 <= doy <= 365, mp == (5 * doy + 2) / 153, day == doy - (153 * mp + 2) / 5 + 1;
}

/// The UTC date (year, month, day) of the instant `secs` seconds after the
/// Unix epoch.
pub open spec fn civil_date_of(secs: i64) -> (i32, u32, u32) {
    let d = civil_from_days(secs as int / 86_400);
    (d.0 as i32, d.1 as u32, d.2 as u32)
}

/// Calls `DateTime::<Utc>::from_timestamp(secs, 0)` and reads its date with
/// `Datelike::{year, month, day}`; `None` where the instant is out of chrono's
/// range. The date is the proleptic Gregorian date of `civil_date_of`.
#[verifier::external_body]
pub(crate) fn calendar_date(secs: i64) -> (d: Option<(i32, u32, u32)>)
    ensures
        d is Some <==> instant_in_range(secs as int, 0),
        d matches Some(v) ==> v == civil_date_of(secs),
{
    match chrono::DateTime::<chrono::Utc>::from_timestamp(secs, 0) {
        Some(t) => Some((chrono::Datelike::year(&t), chrono::Datelike::month(&t), chrono::Datelike::day(&t))),
        None => None,
    }
}

/// The RFC 3339 text that chrono's `to_rfc3339` writes for the UTC instant
/// `secs` seconds and `nanos` nanoseconds after the Unix epoch.
pub uninterp spec fn rfc3339_text(secs: i64, nanos: u32) -> Seq<char>;

/// Calls `DateTime::<Utc>::from_timestamp(secs, nanos)` and renders the instant
/// with `to_rfc3339`; `None` where the instant is out of chrono's range. The
/// text is named by `rfc3339_text`.
#[verifier::external_body]
pub(crate) fn rfc3339_at(secs: i64, nanos: u32) -> (s: Option<String>)
    ensures
        s is Some <==> instant_in_range(secs as int, nanos as int),
        s matches Some(t) ==> t@ == rfc3339_text(secs, nanos),
{
    match chrono::DateTime::<chrono::Utc>::from_timestamp(secs, nanos) {
        Some(t) => Some(t.to_rfc3339()),
        None => None,
    }
}

/// Whether the SQL parser accepts a text as a list of statements in its generic dialect.
pub uninterp spec fn sql_statements_parse(sql: Seq<char>) -> bool;

/// Calls `sqlparser::parser::Parser::parse_sql` with the generic dialect; the
/// result is whether it returned `Ok`, named by `sql_statements_parse`.
#[verifier::external_body]
pub(crate) fn sql_parses(sql: &str) -> (r: bool)
    ensures
        r == sql_statements_parse(sql@),
{
    sqlparser::parser::Parser::parse_sql(&sqlparser::dialect::GenericDialect {}, sql).is_ok()
}

} // verus!
