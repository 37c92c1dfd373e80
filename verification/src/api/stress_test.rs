//! Validating stress-test requests and shaping their responses.

use vstd::prelude::*;
use vstd::utf8::encode_utf8;

use super::config::AppConfig;
use super::score::clamped;
use super::ApiError;
use crate::outside::{is_uuid_text, random_u64, uuid_text, uuid_text_of};
use crate::report::StressTestReport;
use crate::text::{blank, is_blank, push_str};

verus! {

/// A request to stress-test a target program.
#[derive(Debug, Clone)]
pub struct StressRequest {
    pub target_code: String,
    pub language: Option<String>,
    pub trap_count: Option<usize>,
    pub seed: Option<u64>,
}

/// The summary answered for a stress test.
#[derive(Debug, Clone)]
pub struct StressResponse {
    pub job_id: String,
    pub dase_score: u16,
    pub grade: String,
    pub traps_generated: usize,
    pub traps_failed: usize,
    pub certificate_eligible: bool,
    pub telemetry_hash: String,
    pub report_url: String,
    pub generation_seed: u64,
}

/// Largest target accepted, in UTF-8 bytes.
pub open spec fn max_target_bytes() -> nat {
    200_000
}

/// Why a stress test of `target` is refused, if it is.
pub open spec fn stress_refusal(target: Seq<char>) -> Option<Seq<char>> {
    if blank(target) {
        Some("target_code cannot be empty"@)
    } else if encode_utf8(target).len() > max_target_bytes() {
        Some("target_code too large, max 200KB"@)
    } else {
        None
    }
}

/// A blank target is refused as empty; a target with text is refused only when
/// its UTF-8 encoding exceeds 200 000 bytes.
pub proof fn lemma_stress_refusals(target: Seq<char>)
    ensures
        blank(target) ==> stress_refusal(target) == Some("target_code cannot be empty"@),
        !blank(target) && encode_utf8(target).len() > 200_000 ==> stress_refusal(target) == Some(
            "target_code too large, max 200KB"@,
        ),
        !blank(target) && encode_utf8(target).len() <= 200_000 ==> stress_refusal(target) is None,
{
}

/// Refuses a blank target, then a target over 200 000 UTF-8 bytes.
pub fn check_stress_request(req: &StressRequest) -> (r: Result<(), ApiError>)
    ensures
        match stress_refusal(req.target_code@) {
            Some(m) => r matches Err(ApiError::BadRequest(msg)) && msg@ == m,
            None => r is Ok,
        },
{
    if is_blank(req.target_code.as_str()) {
        let mut m = String::new();
        push_str(&mut m, "target_code cannot be empty");
        return Err(ApiError::BadRequest(m));
    }
    if req.target_code.as_str().as_bytes().len() > 200_000 {
        let mut m = String::new();
        push_str(&mut m, "target_code too large, max 200KB");
        return Err(ApiError::BadRequest(m));
    }
    Ok(())
}

/// Number of traps for a request: the requested count, or the configured
/// default, clamped to `[1, max_traps]`.
pub fn planned_trap_count(requested: Option<usize>, config: &AppConfig) -> (n: usize)
    requires
        config.max_traps >= 1,
    ensures
        n == clamped(
            match requested {
                Some(c) => c as int,
                None => config.default_traps as int,
            },
            1,
            config.max_traps as int,
        ),
{
    let wanted: usize = match requested {
        Some(c) => c,
        None => config.default_traps,
    };
    if wanted < 1 {
        1
    } else if wanted > config.max_traps {
        config.max_traps
    } else {
        wanted
    }
}

/// The requested seed, or a random one when none is given.
pub fn seed_or_random(seed: Option<u64>) -> (s: u64)
    ensures
        seed matches Some(v) ==> s == v,
{
    match seed {
        Some(v) => v,
        None => random_u64(),
    }
}

/// Where a report is served: `/v1/score/` and the job id.
pub open spec fn report_url(job_id: Seq<char>) -> Seq<char> {
    "/v1/score/"@ + job_id
}

impl StressResponse {
    /// The summary of `report`, generated with `seed`.
    pub fn from_report(report: &StressTestReport, seed: u64) -> (r: StressResponse)
        ensures
            r.job_id@ == uuid_text_of(report.job_id),
            is_uuid_text(r.job_id@),
            r.report_url@ == report_url(r.job_id@),
            r.dase_score == report.dase_score,
            r.grade@ == report.grade@,
            r.traps_generated == report.traps_generated,
            r.traps_failed == report.traps_failed,
            r.certificate_eligible == report.certificate_eligible,
            r.telemetry_hash@ == report.telemetry_hash@,
            r.generation_seed == seed,
    {
        let job_id = uuid_text(report.job_id);
        let mut url = String::new();
        push_str(&mut url, "/v1/score/");
        push_str(&mut url, job_id.as_str());
        assert(url@ =~= report_url(job_id@));
        StressResponse {
            job_id,
            dase_score: report.dase_score,
            grade: report.grade.clone(),
            traps_generated: report.traps_generated,
            traps_failed: report.traps_failed,
            certificate_eligible: report.certificate_eligible,
            telemetry_hash: report.telemetry_hash.clone(),
            report_url: url,
            generation_seed: seed,
        }
    }
}

} // verus!
