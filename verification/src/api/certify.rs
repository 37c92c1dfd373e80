//! Issuing DASE certificates.

use vstd::prelude::*;

use super::ApiError;
use crate::outside::{calendar_date, civil_date_of, lemma_civil_from_days_ranges, instant_in_range, rfc3339_at, rfc3339_text, utc_now};
use crate::text::{
    blank, decimal, digit, digit_char, first_chars, is_blank, lemma_decimal_len, push_decimal, push_str,
};

verus! {

/// A request for a certificate for a stress-test job.
#[derive(Debug, Clone)]
pub struct CertifyRequest {
    pub job_id: String,
    pub organization: String,
}

/// An issued certificate.
#[derive(Debug, Clone)]
pub struct CertifyResponse {
    pub certificate_id: String,
    pub status: String,
    pub message: String,
    pub valid_until: String,
    pub dase_score_required: u16,
}

/// Why a certificate request is refused, if it is: a blank organization first,
/// then a blank job id.
pub open spec fn certify_refusal(job_id: Seq<char>, organization: Seq<char>) -> Option<Seq<char>> {
    if blank(organization) {
        Some("organization required"@)
    } else if blank(job_id) {
        Some("job_id required"@)
    } else {
        None
    }
}

/// A request is refused for a blank organization whatever its job id, for a
/// blank job id when the organization is given, and otherwise not at all.
pub proof fn lemma_certify_refusals(job_id: Seq<char>, organization: Seq<char>)
    ensures
        blank(organization) ==> certify_refusal(job_id, organization) == Some("organization required"@),
        !blank(organization) && blank(job_id) ==> certify_refusal(job_id, organization) == Some(
            "job_id required"@,
        ),
        !blank(organization) && !blank(job_id) ==> certify_refusal(job_id, organization) is None,
{
}

/// The short id is the whole job id when it has at most eight characters, and
/// its first eight characters otherwise.
pub proof fn lemma_short_id(job_id: Seq<char>)
    ensures
        job_id.len() <= 8 ==> short_id(job_id) == job_id,
        job_id.len() > 8 ==> short_id(job_id).len() == 8 && short_id(job_id) == job_id.subrange(0, 8),
{
    if job_id.len() <= 8 {
        assert(job_id.take(job_id.len() as int) =~= job_id);
    }
}

/// The first eight characters of a job id.
pub open spec fn short_id(job_id: Seq<char>) -> Seq<char> {
    job_id.take(if 8 < job_id.len() { 8 } else { job_id.len() as int })
}

/// The certificate id: `ZEVQ-CERT-`, the date stamp, `-` and the short job id.
pub open spec fn certificate_id(date_stamp: Seq<char>, job_id: Seq<char>) -> Seq<char> {
    "ZEVQ-CERT-"@ + date_stamp + "-"@ + short_id(job_id)
}

/// The message of a certificate issued to `organization`.
pub open spec fn certificate_message(organization: Seq<char>) -> Seq<char> {
    "DASE Certificate issued for "@ + organization + ". Deterministic verification complete."@
}

/// `c` is the certificate for `req` dated `date_stamp`, valid until `valid_until`.
pub open spec fn is_certificate(
    c: CertifyResponse,
    req: CertifyRequest,
    date_stamp: Seq<char>,
    valid_until: Seq<char>,
) -> bool {
    &&& c.certificate_id@ == certificate_id(date_stamp, req.job_id@)
    &&& c.status@ == "issued"@
    &&& c.message@ == certificate_message(req.organization@)
    &&& c.valid_until@ == valid_until
    &&& c.dase_score_required == 850
}

fn bad_request(text: &str) -> (e: ApiError)
    ensures
        e matches ApiError::BadRequest(m) && m@ == text@,
{
    let mut m = String::new();
    push_str(&mut m, text);
    ApiError::BadRequest(m)
}

/// Issues the certificate for `req`, dated `date_stamp` and valid until
/// `valid_until`, unless the request is refused.
pub fn issue_certificate(req: &CertifyRequest, date_stamp: &str, valid_until: String) -> (r: Result<
    CertifyResponse,
    ApiError,
>)
    ensures
        match certify_refusal(req.job_id@, req.organization@) {
            Some(m) => r matches Err(ApiError::BadRequest(msg)) && msg@ == m,
            None => r matches Ok(c) && is_certificate(c, *req, date_stamp@, valid_until@),
        },
{
    if is_blank(req.organization.as_str()) {
        return Err(bad_request("organization required"));
    }
    if is_blank(req.job_id.as_str()) {
        return Err(bad_request("job_id required"));
    }
    let short = first_chars(req.job_id.as_str(), 8);
    let mut id = String::new();
    push_str(&mut id, "ZEVQ-CERT-");
    push_str(&mut id, date_stamp);
    push_str(&mut id, "-");
    push_str(&mut id, short.as_str());
    assert(id@ =~= certificate_id(date_stamp@, req.job_id@));
    let mut status = String::new();
    push_str(&mut status, "issued");
    let mut message = String::new();
    push_str(&mut message, "DASE Certificate issued for ");
    push_str(&mut message, req.organization.as_str());
    push_str(&mut message, ". Deterministic verification complete.");
    assert(message@ =~= certificate_message(req.organization@));
    Ok(CertifyResponse {
        certificate_id: id,
        status,
        message,
        valid_until,
        dase_score_required: 850,
    })
}

/// `k` zeros (none when `k` is not positive).
pub open spec fn zeros(k: int) -> Seq<char> {
    Seq::new(if k > 0 { k as nat } else { 0 }, |i: int| '0')
}

/// Decimal text of `n`, zero-padded to at least four digits.
pub open spec fn padded4(n: nat) -> Seq<char> {
    zeros(4 - decimal(n).len()) + decimal(n)
}

/// A year as the `%Y` format writes it: four zero-padded digits for years 0 to
/// 9999, otherwise a sign and at least four zero-padded digits.
pub open spec fn year_text(y: int) -> Seq<char> {
    if 0 <= y <= 9999 {
        padded4(y as nat)
    } else if y < 0 {
        seq!['-'] + padded4((-y) as nat)
    } else {
        seq!['+'] + padded4(y as nat)
    }
}

/// A value below 100 as two digits, zero-padded.
pub open spec fn two_digits(v: nat) -> Seq<char> {
    seq![digit_char(v / 10), digit_char(v % 10)]
}

/// The date stamp of a certificate: year, month and day as `%Y%m%d`.
pub open spec fn date_stamp_text(d: (i32, u32, u32)) -> Seq<char> {
    year_text(d.0 as int) + two_digits(d.1 as nat) + two_digits(d.2 as nat)
}

fn push_padded4(out: &mut String, n: u64)
    ensures
        final(out)@ == old(out)@ + padded4(n as nat),
{
    proof {
        lemma_decimal_len(n as nat);
    }
    if n < 10 {
        push_str(out, "000");
        proof {
            reveal_strlit("000");
            assert("000"@ =~= zeros(3));
        }
    } else if n < 100 {
        push_str(out, "00");
        proof {
            reveal_strlit("00");
            assert("00"@ =~= zeros(2));
        }
    } else if n < 1000 {
        push_str(out, "0");
        proof {
            reveal_strlit("0");
            assert("0"@ =~= zeros(1));
        }
    } else {
        assert(zeros(4 - decimal(n as nat).len()) =~= Seq::<char>::empty());
    }
    let ghost before = out@;
    push_decimal(out, n);
    assert(final(out)@ =~= old(out)@ + padded4(n as nat)) by {
        assert(out@ =~= before + decimal(n as nat));
    }
}

fn push_two_digits(out: &mut String, v: u32)
    requires
        v < 100,
    ensures
        final(out)@ == old(out)@ + two_digits(v as nat),
{
    out.push(digit((v / 10) as u64));
    out.push(digit((v % 10) as u64));
    assert(out@ =~= old(out)@ + two_digits(v as nat));
}

/// The date stamp `%Y%m%d` of a calendar date.
pub fn date_stamp(year: i32, month: u32, day: u32) -> (s: String)
    requires
        month < 100,
        day < 100,
    ensures
        s@ == date_stamp_text((year, month, day)),
{
    let mut s = String::new();
    if 0 <= year && year <= 9999 {
        push_padded4(&mut s, year as u64);
    } else if year < 0 {
        s.push('-');
        push_padded4(&mut s, (-(year as i64)) as u64);
    } else {
        s.push('+');
        push_padded4(&mut s, year as u64);
    }
    assert(s@ =~= year_text(year as int));
    push_two_digits(&mut s, month);
    push_two_digits(&mut s, day);
    assert(s@ =~= date_stamp_text((year, month, day)));
    s
}

/// A certificate is valid for 90 days, in seconds.
pub open spec fn validity_secs() -> int {
    90int * 86_400
}

/// A certificate is valid for 90 days of 86 400 seconds: 7 776 000 seconds.
pub proof fn lemma_validity_is_ninety_days()
    ensures
        validity_secs() == 7_776_000,
        validity_secs() == 90 * 24 * 60 * 60,
{
}

/// What `certify` answers when the clock reads `secs` seconds and `nanos`
/// nanoseconds after the epoch: the certificate dated with that day and valid
/// until 90 days later, or an internal error when either instant is beyond the
/// calendar's range.
pub open spec fn certify_outcome(
    r: Result<CertifyResponse, ApiError>,
    req: CertifyRequest,
    secs: i64,
    nanos: u32,
) -> bool {
    let until = secs + validity_secs();
    if instant_in_range(secs as int, 0) && instant_in_range(until, nanos as int) {
        r matches Ok(c) && is_certificate(
            c,
            req,
            date_stamp_text(civil_date_of(secs)),
            rfc3339_text(until as i64, nanos),
        )
    } else {
        r matches Err(ApiError::Internal(_))
    }
}

/// The date stamp of the day that holds the instant `secs` seconds after the
/// epoch; `None` beyond the calendar's range.
pub fn stamp_at(secs: i64) -> (s: Option<String>)
    ensures
        s is Some <==> instant_in_range(secs as int, 0),
        s matches Some(t) ==> t@ == date_stamp_text(civil_date_of(secs)),
{
    match calendar_date(secs) {
        None => None,
        Some((year, month, day)) => {
            proof {
                lemma_civil_from_days_ranges(secs as int / 86_400);
            }
            Some(date_stamp(year, month, day))
        },
    }
}

/// The RFC 3339 text of the instant 90 days after `secs` seconds and `nanos`
/// nanoseconds past the epoch; `None` beyond the calendar's range.
pub fn valid_until_at(secs: i64, nanos: u32) -> (s: Option<String>)
    ensures
        s is Some <==> instant_in_range(secs + validity_secs(), nanos as int),
        s matches Some(t) ==> t@ == rfc3339_text((secs + validity_secs()) as i64, nanos),
{
    if secs > i64::MAX - 7_776_000 {
        None
    } else {
        rfc3339_at(secs + 7_776_000, nanos)
    }
}

fn internal_error() -> (e: ApiError)
    ensures
        e matches ApiError::Internal(_),
{
    let mut m = String::new();
    push_str(&mut m, "validity date out of range");
    ApiError::Internal(m)
}

/// The answer to `req` when the clock reads `secs` seconds and `nanos`
/// nanoseconds after the epoch: the refusals first, then the certificate dated
/// with that day and valid until 90 days later, or an internal error when
/// either instant is beyond the calendar's range.
pub fn certify_at(req: &CertifyRequest, secs: i64, nanos: u32) -> (r: Result<CertifyResponse, ApiError>)
    ensures
        match certify_refusal(req.job_id@, req.organization@) {
            Some(m) => r matches Err(ApiError::BadRequest(msg)) && msg@ == m,
            None => certify_outcome(r, *req, secs, nanos),
        },
{
    if is_blank(req.organization.as_str()) {
        return Err(bad_request("organization required"));
    }
    if is_blank(req.job_id.as_str()) {
        return Err(bad_request("job_id required"));
    }
    match stamp_at(secs) {
        None => Err(internal_error()),
        Some(stamp) => match valid_until_at(secs, nanos) {
            None => Err(internal_error()),
            Some(until) => issue_certificate(req, stamp.as_str(), until),
        },
    }
}

/// Issues a certificate for `req` dated today (UTC) and valid for 90 days,
/// unless the request is refused: the answer of `certify_at` for one reading of
/// the clock, taken only when the request is not refused.
pub fn certify(req: &CertifyRequest) -> (r: Result<CertifyResponse, ApiError>)
    ensures
        match certify_refusal(req.job_id@, req.organization@) {
            Some(m) => r matches Err(ApiError::BadRequest(msg)) && msg@ == m,
            None => exists|secs: i64, nanos: u32|
                nanos < 2_000_000_000 && #[trigger] certify_outcome(r, *req, secs, nanos),
        },
{
    if is_blank(req.organization.as_str()) {
        return Err(bad_request("organization required"));
    }
    if is_blank(req.job_id.as_str()) {
        return Err(bad_request("job_id required"));
    }
    let (secs, nanos) = utc_now();
    let r = certify_at(req, secs, nanos);
    assert(certify_outcome(r, *req, secs, nanos));
    r
}

} // verus!
