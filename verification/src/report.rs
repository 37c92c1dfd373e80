//! The report of a stress test: counts, score, grade, certification and a
//! telemetry hash over the summary.

use vstd::prelude::*;
use vstd::utf8::encode_utf8;

use crate::outside::{hex_encode, hex_text, new_uuid, sha256, sha256_of, utc_now, uuid_version4};
use crate::scorer::{failed_count, failures, grade_from_score, grade_text, lemma_failures_bound};
use crate::text::{decimal, push_decimal, push_str};
use crate::TrapResult;

verus! {

/// A UTC instant: seconds since the Unix epoch and nanoseconds past them.
#[derive(Debug, Clone, Copy, PartialEq, Eq, Structural)]
pub struct UtcInstant {
    pub secs: i64,
    pub nanos: u32,
}

/// The summary line that the telemetry hash covers: `score:failed:generated`.
pub open spec fn telemetry_line(score: u16, failed: nat, generated: nat) -> Seq<char> {
    decimal(score as nat) + ":"@ + decimal(failed) + ":"@ + decimal(generated)
}

/// Lower-case hex of the SHA-256 of the UTF-8 summary line.
pub open spec fn telemetry_digest(score: u16, failed: nat, generated: nat) -> Seq<char> {
    hex_text(sha256_of(encode_utf8(telemetry_line(score, failed, generated))))
}

/// A run is certifiable when it scores at least 850 with no failed trap.
pub open spec fn certifiable(score: u16, failed: nat) -> bool {
    score >= 850 && failed == 0
}

/// Hex text has two characters per byte.
pub proof fn lemma_hex_text_len(data: Seq<u8>)
    ensures
        hex_text(data).len() == 2 * data.len(),
    decreases data.len(),
{
    if data.len() > 0 {
        lemma_hex_text_len(data.drop_first());
    }
}

/// Telemetry hash of a run summary.
pub fn telemetry_hash(score: u16, failed: usize, generated: usize) -> (h: String)
    ensures
        h@ == telemetry_digest(score, failed as nat, generated as nat),
        h@.len() == 64,
{
    let mut line = String::new();
    push_decimal(&mut line, score as u64);
    push_str(&mut line, ":");
    push_decimal(&mut line, failed as u64);
    push_str(&mut line, ":");
    push_decimal(&mut line, generated as u64);
    assert(line@ =~= telemetry_line(score, failed as nat, generated as nat));
    let bytes = line.as_str().as_bytes();
    let digest = sha256(bytes);
    proof {
        lemma_hex_text_len(digest@);
    }
    hex_encode(digest.as_slice())
}

/// The report of one stress test. The job id is a version-4 UUID, held as its
/// big-endian 128-bit value.
#[derive(Debug)]
pub struct StressTestReport {
    pub job_id: u128,
    pub timestamp: UtcInstant,
    pub traps_generated: usize,
    pub traps_failed: usize,
    pub dase_score: u16,
    pub grade: String,
    pub results: Vec<TrapResult>,
    pub certificate_eligible: bool,
    pub telemetry_hash: String,
}

/// `r` is a report on `results` with DASE score `dase_score`, in every field
/// but the job id and the timestamp: the results, their count and the failed
/// count, the score, its grade, the certification and the telemetry hash.
pub open spec fn summarizes(r: StressTestReport, results: Seq<TrapResult>, dase_score: u16) -> bool {
    &&& r.results@ == results
    &&& r.traps_generated == results.len()
    &&& r.traps_failed == failures(results)
    &&& r.dase_score == dase_score
    &&& r.grade@ == grade_text(dase_score, 900, 850)
    &&& r.certificate_eligible == certifiable(dase_score, r.traps_failed as nat)
    &&& r.telemetry_hash@ == telemetry_digest(dase_score, r.traps_failed as nat, r.traps_generated as nat)
    &&& r.telemetry_hash@.len() == 64
    &&& r.traps_failed <= r.traps_generated
}

impl StressTestReport {
    /// The report of `results`, whose DASE score is `dase_score`, under the
    /// given job id and timestamp.
    pub fn new_at(results: Vec<TrapResult>, dase_score: u16, job_id: u128, timestamp: UtcInstant) -> (r:
        StressTestReport)
        ensures
            summarizes(r, results@, dase_score),
            r.certificate_eligible <==> (r.dase_score >= 850 && r.traps_failed == 0),
            r.traps_failed > 0 ==> !r.certificate_eligible,
            r.job_id == job_id,
            r.timestamp == timestamp,
    {
        proof {
            lemma_failures_bound(results@);
        }
        let traps_failed = failed_count(results.as_slice());
        let grade = grade_from_score(dase_score);
        let certificate_eligible = dase_score >= 850 && traps_failed == 0;
        let hash = telemetry_hash(dase_score, traps_failed, results.len());
        StressTestReport {
            job_id,
            timestamp,
            traps_generated: results.len(),
            traps_failed,
            dase_score,
            grade,
            results,
            certificate_eligible,
            telemetry_hash: hash,
        }
    }

    /// The report of `results`, whose DASE score is `dase_score`, under a fresh
    /// version-4 job id and the current time.
    pub fn new(results: Vec<TrapResult>, dase_score: u16) -> (r: StressTestReport)
        ensures
            summarizes(r, results@, dase_score),
            r.certificate_eligible <==> (r.dase_score >= 850 && r.traps_failed == 0),
            r.traps_failed > 0 ==> !r.certificate_eligible,
            r.timestamp.nanos < 2_000_000_000,
            uuid_version4(r.job_id),
    {
        let job_id = new_uuid();
        let (secs, nanos) = utc_now();
        Self::new_at(results, dase_score, job_id, UtcInstant { secs, nanos })
    }
}

/// A report is certificate eligible exactly when it scores at least 850 and no
/// trap failed: a run with a failed trap is never certified, whatever its score.
pub proof fn lemma_certified_only_without_failures(r: StressTestReport, results: Seq<TrapResult>, dase_score: u16)
    requires
        summarizes(r, results, dase_score),
    ensures
        r.certificate_eligible <==> (r.dase_score >= 850 && r.traps_failed == 0),
        r.traps_failed > 0 ==> !r.certificate_eligible,
        r.dase_score < 850 ==> !r.certificate_eligible,
{
}

/// Two reports on the same results with the same score differ at most in
/// their job ids and timestamps.
pub proof fn lemma_reports_differ_only_in_id_and_time(
    a: StressTestReport,
    b: StressTestReport,
    results: Seq<TrapResult>,
    dase_score: u16,
)
    requires
        summarizes(a, results, dase_score),
        summarizes(b, results, dase_score),
    ensures
        a.results@ == b.results@,
        a.traps_generated == b.traps_generated,
        a.traps_failed == b.traps_failed,
        a.dase_score == b.dase_score,
        a.grade@ == b.grade@,
        a.certificate_eligible == b.certificate_eligible,
        a.telemetry_hash@ == b.telemetry_hash@,
{
}

} // verus!
