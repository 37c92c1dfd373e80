use zevq::analyzer::{analysis_counters_fit, analyze_code, analyze_sql_validity, AnalysisReport, SyntaxFacts};
use zevq::api::certify::{certify, certify_at, date_stamp, issue_certificate, stamp_at, valid_until_at, CertifyRequest};
use zevq::api::config::AppConfig;
use zevq::api::score::{report_not_found, stream_count, StreamParams};
use zevq::api::stress_test::{check_stress_request, planned_trap_count, seed_or_random, StressRequest, StressResponse};
use zevq::api::ApiError;
use zevq::generator::logic_traps::{boundary_trap, null_safety_trap, BoundaryGenerator, NullSafetyGenerator};
use zevq::generator::math_traps::{arithmetic_edge_trap, overflow_trap, ArithmeticEdgeGenerator, OverflowGenerator};
use zevq::generator::sql_traps::{join_complexity_trap, sql_logic_trap, JoinComplexityGenerator, SqlLogicGenerator};
use zevq::generator::{quick_generate, DynamicTrapEngine, GeneratorKind, TrapGeneratorImpl};
use zevq::report::{telemetry_hash, StressTestReport, UtcInstant};
use zevq::text::is_white_space;
use zevq::scorer::{failed_count, fixed_score, grade_from_score, grade_with_config, severity_total, ScoringConfig};
use zevq::verdict::{defends_against, Verifier};
use zevq::{EngineConfig, Trap, TrapCategory, TrapResult};

fn trap_with(category: TrapCategory, severity: u8) -> Trap {
    Trap {
        id: String::new(),
        category,
        severity,
        code: "x".to_string(),
        description: "d".to_string(),
        expected_failure: "reason".to_string(),
        deterministic_seed: 0,
        generation_nonce: 0,
    }
}

fn result_of(severity: u8, passed: bool) -> TrapResult {
    TrapResult::record(&trap_with(TrapCategory::SqlLogic, severity), passed, 3, 0.9f32.to_bits())
}

fn is_uuid_text(s: &str) -> bool {
    s.len() == 36
        && s.char_indices().all(|(i, c)| {
            if i == 8 || i == 13 || i == 18 || i == 23 {
                c == '-'
            } else {
                c.is_ascii_digit() || ('a'..='f').contains(&c)
            }
        })
}

fn facts(calls_unwrap: bool, get_calls: u32, has_index: bool, if_exprs: u32) -> Option<SyntaxFacts> {
    Some(SyntaxFacts { calls_unwrap, calls_expect: false, get_calls, has_index, if_exprs })
}

#[test]
fn categories_in_order_with_weights() {
    let all = TrapCategory::all();
    assert_eq!(
        all,
        vec![
            TrapCategory::SqlLogic,
            TrapCategory::NullHandling,
            TrapCategory::TypeCoercion,
            TrapCategory::JoinComplexity,
            TrapCategory::RecursionDepth,
            TrapCategory::ArithmeticEdge,
        ]
    );
    let tenths: Vec<u32> = all.iter().map(|c| c.weight_tenths()).collect();
    assert_eq!(tenths, vec![14, 15, 11, 12, 10, 13]);
    for (i, c) in all.iter().enumerate() {
        assert_eq!(c.index(), i);
    }
}

#[test]
fn default_configs() {
    let e = EngineConfig::default();
    assert_eq!((e.max_traps, e.default_traps, e.enable_z3), (10_000, 50, false));
    let s = ScoringConfig::default();
    assert_eq!(s.weights_permille, [Some(1400), Some(1500), Some(1100), Some(1200), Some(1000), Some(1300)]);
    assert_eq!(s.weight_permille(TrapCategory::NullHandling), 1500);
    let mut partial = ScoringConfig::default();
    partial.weights_permille[1] = None;
    assert_eq!(partial.weight_permille(TrapCategory::NullHandling), 1000);
    assert_eq!(partial.weight_permille(TrapCategory::SqlLogic), 1400);
    assert_eq!((s.exponent_permille, s.s_tier, s.a_tier), (850, 900, 850));
    assert_eq!(s.weight_permille(TrapCategory::NullHandling), 1500);
}

#[test]
fn grade_text_at_every_threshold() {
    assert_eq!(grade_from_score(950), "S-Tier (Production Ready) [950/1000]");
    assert_eq!(grade_from_score(900), "S-Tier (Production Ready) [900/1000]");
    assert_eq!(grade_from_score(899), "A-Tier (Certifiable) [899/1000]");
    assert_eq!(grade_from_score(850), "A-Tier (Certifiable) [850/1000]");
    assert_eq!(grade_from_score(849), "B-Tier (Needs Hardening) [849/1000]");
    assert_eq!(grade_from_score(700), "B-Tier (Needs Hardening) [700/1000]");
    assert_eq!(grade_from_score(699), "C-Tier (Risky) [699/1000]");
    assert_eq!(grade_from_score(500), "C-Tier (Risky) [500/1000]");
    assert_eq!(grade_from_score(499), "F-Tier (Catastrophic) [499/1000]");
    assert_eq!(grade_from_score(0), "F-Tier (Catastrophic) [0/1000]");
    assert_eq!(grade_from_score(1000), "S-Tier (Production Ready) [1000/1000]");
    let custom = ScoringConfig { s_tier: 990, a_tier: 600, ..ScoringConfig::default() };
    assert_eq!(grade_with_config(950, &custom), "A-Tier (Certifiable) [950/1000]");
    assert_eq!(grade_with_config(650, &custom), "A-Tier (Certifiable) [650/1000]");
}

#[test]
fn tiers_never_drop_as_score_rises() {
    let rank = |g: String| ["F-Tier", "C-Tier", "B-Tier", "A-Tier", "S-Tier"].iter().position(|p| g.starts_with(p)).unwrap();
    let mut last = 0;
    for score in 0..=1000u16 {
        let r = rank(grade_from_score(score));
        assert!(r >= last);
        last = r;
    }
}

#[test]
fn fixed_score_only_for_empty_or_weightless_runs() {
    assert_eq!(fixed_score(&[result_of(0, false), result_of(0, true)]), Some(1000));
    assert_eq!(fixed_score(&[result_of(3, true)]), None);
    let rs = vec![result_of(7, false), result_of(10, true), result_of(9, false)];
    assert_eq!(severity_total(&rs), 26);
    assert_eq!(failed_count(&rs), 2);
}

#[test]
fn record_carries_reason_only_on_failure() {
    let t = trap_with(TrapCategory::JoinComplexity, 9);
    let failed = TrapResult::record(&t, false, 12, 7);
    assert_eq!(failed.failure_reason.as_deref(), Some("reason"));
    assert_eq!((failed.execution_time_micros, failed.confidence_bits), (12, 7));
    assert_eq!(failed.trap.code, "x");
    let passed = TrapResult::record(&t, true, 12, 7);
    assert!(passed.failure_reason.is_none());
}

#[test]
fn report_counts_grade_and_certification() {
    let rs = vec![result_of(7, true), result_of(10, true), result_of(9, true), result_of(8, true), result_of(8, true)];
    let r = StressTestReport::new(rs, 850);
    assert_eq!((r.traps_generated, r.traps_failed), (5, 0));
    assert!(r.certificate_eligible);
    assert_eq!(r.grade, "A-Tier (Certifiable) [850/1000]");
    assert_eq!(r.telemetry_hash, "17f980d20c51fd82e4900936a5652e67ec0032f2df2501cd34b0d3896a50a18f");
    assert!(r.timestamp.secs > 1_600_000_000);
    let low = StressTestReport::new(vec![result_of(7, true)], 849);
    assert!(!low.certificate_eligible);
    let failing = StressTestReport::new(vec![result_of(7, false), result_of(7, true)], 950);
    assert!(!failing.certificate_eligible);
    assert_eq!((failing.traps_generated, failing.traps_failed), (2, 1));
    assert!(failing.traps_failed <= failing.traps_generated);
}

#[test]
fn telemetry_hash_is_sha256_hex_of_summary() {
    assert_eq!(telemetry_hash(1000, 0, 0), "cfc467d03a923d9b6fef6bde69e7b338acabed084261bc3f8fa21d0b618bfd66");
    assert_eq!(telemetry_hash(912, 3, 50), "e92b5086532075c87cac90ee2b906e6614905778e12171b259d9005533315c89");
}

#[test]
fn response_points_at_report() {
    let r = StressTestReport::new(Vec::new(), 1000);
    let resp = StressResponse::from_report(&r, 77);
    assert!(is_uuid_text(&resp.job_id));
    assert_eq!(resp.job_id, uuid::Uuid::from_u128(r.job_id).to_string());
    assert_eq!(uuid::Uuid::from_u128(r.job_id).get_version_num(), 4);
    assert_eq!(resp.report_url, format!("/v1/score/{}", resp.job_id));
    assert_eq!(resp.generation_seed, 77);
    assert_eq!(resp.dase_score, 1000);
    assert_eq!(resp.telemetry_hash, r.telemetry_hash);
}

#[test]
fn analysis_from_syntax_facts() {
    let code = "fn f(v: Vec<i32>) -> Option<i32> { if v.is_empty() { return None; } v.get(0).copied() }";
    let r = analyze_code(code, &facts(false, 1, false, 1));
    assert_eq!(
        r,
        AnalysisReport {
            has_unsafe_unwrap: false,
            has_unchecked_index: false,
            has_expect: false,
            cyclomatic_complexity: 2,
            null_checks: 0,
            safe_guards: 1,
        }
    );
    let guarded = analyze_code("fn g(a: u8) -> Option<u8> { a.checked_add(1)? .checked_mul(2) }", &facts(false, 0, false, 0));
    assert_eq!((guarded.safe_guards, guarded.null_checks), (3, 1));
}

#[test]
fn analysis_by_text_when_not_rust() {
    let code = "x.unwrap() if a[1] for while match; if";
    let r = analyze_code(code, &None);
    assert!(r.has_unsafe_unwrap);
    assert!(r.has_unchecked_index);
    assert!(!r.has_expect);
    assert_eq!(r.cyclomatic_complexity, 6);
    assert_eq!((r.safe_guards, r.null_checks), (0, 0));
    let plain = analyze_code("SELECT 1", &None);
    assert_eq!(plain, AnalysisReport { cyclomatic_complexity: 1, ..AnalysisReport::default() });
    assert!(analysis_counters_fit(code, &None));
    assert!(!analysis_counters_fit("x", &facts(false, 0, false, u32::MAX)));
    assert!(!analysis_counters_fit("checked_", &facts(false, u32::MAX - 1, false, 0)));
}

#[test]
fn sql_validity() {
    assert!(analyze_sql_validity("SELECT id FROM users WHERE id IS NULL"));
    assert!(!analyze_sql_validity("SELEKT FROM WHERE"));
}

#[test]
fn defences_per_category() {
    let none = AnalysisReport::default();
    assert!(defends_against(TrapCategory::SqlLogic, "select * from t where x is null", &none));
    assert!(!defends_against(TrapCategory::SqlLogic, "select * from t", &none));
    assert!(defends_against(TrapCategory::SqlLogic, "COALESCE(x, 0)", &none));
    assert!(!defends_against(TrapCategory::SqlLogic, "coalesce(x, 0)", &none));
    assert!(defends_against(TrapCategory::JoinComplexity, "SELECT a LEFT JOIN b on a.id = b.id where b.x > 1", &none));
    assert!(!defends_against(TrapCategory::JoinComplexity, "select a left join b on a.id = b.id where b.x > 1", &none));
    assert!(defends_against(TrapCategory::RecursionDepth, "x.checked_shl(3)", &none));
    assert!(!defends_against(TrapCategory::RecursionDepth, "x << 3", &none));
    assert!(defends_against(TrapCategory::ArithmeticEdge, "if d != 0 { x / d }", &none));
    let guarded = AnalysisReport { null_checks: 1, safe_guards: 2, ..AnalysisReport::default() };
    assert!(defends_against(TrapCategory::ArithmeticEdge, "x / d", &guarded));
    assert!(defends_against(TrapCategory::NullHandling, "", &guarded));
    let unwraps = AnalysisReport { has_unsafe_unwrap: true, ..guarded };
    assert!(!defends_against(TrapCategory::NullHandling, "", &unwraps));
    let indexed = AnalysisReport { has_unchecked_index: true, ..guarded };
    assert!(!defends_against(TrapCategory::TypeCoercion, "a.checked_sub(1)", &indexed));
    assert!(defends_against(TrapCategory::TypeCoercion, "if i + 1 < a.len() <", &none));
}

#[test]
fn judgement_is_defence_flipped_by_noise() {
    let t = trap_with(TrapCategory::RecursionDepth, 8);
    let none = AnalysisReport::default();
    let mut v = Verifier::new(5);
    let mut flips = 0;
    for _ in 0..500 {
        let j = v.judge(&t, "x.checked_mul(2)", &none);
        assert!(j.defended);
        assert_eq!(j.passed, !j.noise);
        if j.noise {
            flips += 1;
        }
    }
    assert!(flips > 20 && flips < 120);
}

#[test]
fn trap_builders_render_exact_code() {
    let a = arithmetic_edge_trap(1, 2, -5, 3, 123);
    assert_eq!(a.code, "fn calc_123(x: i64) -> i64 { (x*3) / (x - -5) }");
    assert_eq!(a.description, "Div zero root -5");
    assert_eq!((a.severity, a.category), (9, TrapCategory::ArithmeticEdge));
    let o = overflow_trap(1, 2, 64);
    assert_eq!(o.code, "let v = 1u64 << 64;");
    assert_eq!(o.category, TrapCategory::RecursionDepth);
    let n = null_safety_trap(1, 2, "user.name", 512);
    assert_eq!(n.code, "let d_512 = user.name.split('@').collect::<Vec<_>>()[1];");
    assert_eq!(n.description, "Null trap on user.name");
    let b = boundary_trap(1, 2, 7);
    assert_eq!(
        b.code,
        "fn check(arr: &[i32]) -> bool { for i in 0..arr.len()-7 { if arr[i]==arr[i+7] { return true; } } false }"
    );
    assert_eq!(b.expected_failure, "len()-N underflows");
    let s = sql_logic_trap(1, 2, "users", "col_abcd", 8);
    assert_eq!(s.code, "SELECT * FROM users WHERE col_abcd NOT IN (SELECT id FROM orders WHERE id IS NULL)");
    assert_eq!(s.description, "SQL logic trap on users.col_abcd");
    let j = join_complexity_trap(1, 42, "orders", "t_qwer", 500);
    assert_eq!(
        j.code,
        "SELECT orders.id, COUNT(t_qwer.id) FROM orders LEFT JOIN t_qwer ON t_qwer.fk=orders.id AND t_qwer.amount>500 GROUP BY orders.id"
    );
    assert_eq!(j.description, "JOIN trap #42");
    assert_eq!((j.deterministic_seed, j.generation_nonce), (1, 42));
}

#[test]
fn generators_draw_within_their_ranges() {
    for nonce in 0..200u64 {
        let seed = nonce.wrapping_mul(0x1234_5678_9abc);
        let s = SqlLogicGenerator.generate(seed, nonce);
        assert!((7..=10).contains(&s.severity));
        assert!(s.code.starts_with("SELECT * FROM "));
        assert!(s.code.contains(" WHERE col_"));
        let a = ArithmeticEdgeGenerator.generate(seed, nonce);
        let root: i64 = a.description.trim_start_matches("Div zero root ").parse().unwrap();
        assert!((-5000..5000).contains(&root));
        let o = OverflowGenerator.generate(seed, nonce);
        let shift: i64 = o.description.trim_start_matches("Shift overflow ").parse().unwrap();
        assert!((0..70).contains(&shift));
        let b = BoundaryGenerator.generate(seed, nonce);
        let off: i64 = b.description.trim_start_matches("Boundary off-by-").parse().unwrap();
        assert!((1..32).contains(&off));
        let n = NullSafetyGenerator.generate(seed, nonce);
        assert!(n.code.starts_with("let d_"));
        let j = JoinComplexityGenerator.generate(seed, nonce);
        assert_eq!(j.description, format!("JOIN trap #{nonce}"));
        for t in [&s, &a, &o, &b, &n, &j] {
            assert_eq!((t.deterministic_seed, t.generation_nonce), (seed, nonce));
            assert!(t.id.is_empty());
        }
    }
    assert_eq!(SqlLogicGenerator.category_name(), "sql_logic");
    assert_eq!(OverflowGenerator.category_name(), "overflow");
}

#[test]
fn engine_traps_follow_seed_and_nonce() {
    let seed = 0xfeed_beef_u64;
    let traps = quick_generate(200, seed);
    assert_eq!(traps.len(), 200);
    for (i, t) in traps.iter().enumerate() {
        assert_eq!(t.generation_nonce, i as u64);
        assert_eq!(t.deterministic_seed, seed.wrapping_add(i as u64).wrapping_mul(0x9e3779b97f4a7c15));
        assert!(is_uuid_text(&t.id));
        assert!((7..=10).contains(&t.severity));
        assert!(!t.code.is_empty() && !t.expected_failure.is_empty());
    }
    let mut e = DynamicTrapEngine::with_config(seed, &EngineConfig::default());
    let first = e.generate_n(3);
    let next = e.next_trap();
    assert_eq!(next.generation_nonce, 3);
    assert_eq!(first[2].generation_nonce, 2);
    let g = GeneratorKind::Boundary.generate(9, 1);
    assert_eq!(g.category, TrapCategory::TypeCoercion);
}

#[test]
fn config_from_settings() {
    let c = AppConfig::from_settings(None, None, None, None, None);
    assert_eq!((c.port, c.max_traps, c.default_traps, c.request_timeout_secs), (8080, 10_000, 50, 30));
    assert_eq!(c.log_level, "zevq_api=info,zevq_core=info");
    let c = AppConfig::from_settings(Some("9090"), Some("+25"), Some("7"), Some("18446744073709551615"), Some("debug"));
    assert_eq!((c.port, c.max_traps, c.default_traps, c.request_timeout_secs), (9090, 25, 7, u64::MAX));
    assert_eq!(c.log_level, "debug");
    let c = AppConfig::from_settings(Some("65536"), Some("-3"), Some(""), Some("+"), None);
    assert_eq!((c.port, c.max_traps, c.default_traps, c.request_timeout_secs), (8080, 10_000, 50, 30));
    let c = AppConfig::from_settings(Some(" 80"), Some("12x"), Some("0"), Some("18446744073709551616"), None);
    assert_eq!((c.port, c.max_traps, c.default_traps, c.request_timeout_secs), (8080, 10_000, 0, 30));
}

fn request(code: &str, count: Option<usize>) -> StressRequest {
    StressRequest { target_code: code.to_string(), language: None, trap_count: count, seed: None }
}

#[test]
fn stress_requests_are_validated() {
    match check_stress_request(&request(" \t\n ", None)) {
        Err(ApiError::BadRequest(m)) => assert_eq!(m, "target_code cannot be empty"),
        _ => panic!("blank target accepted"),
    }
    match check_stress_request(&request(&"x".repeat(200_001), None)) {
        Err(ApiError::BadRequest(m)) => assert_eq!(m, "target_code too large, max 200KB"),
        _ => panic!("large target accepted"),
    }
    match check_stress_request(&request(&"é".repeat(100_001), None)) {
        Err(ApiError::BadRequest(m)) => assert_eq!(m, "target_code too large, max 200KB"),
        _ => panic!("large target accepted"),
    }
    assert!(check_stress_request(&request(&"x".repeat(200_000), None)).is_ok());
    let config = AppConfig::from_settings(None, Some("100"), Some("40"), None, None);
    assert_eq!(planned_trap_count(None, &config), 40);
    assert_eq!(planned_trap_count(Some(0), &config), 1);
    assert_eq!(planned_trap_count(Some(101), &config), 100);
    assert_eq!(planned_trap_count(Some(64), &config), 64);
    assert_eq!(seed_or_random(Some(5)), 5);
    let _ = seed_or_random(None);
}

#[test]
fn stream_counts_and_missing_reports() {
    assert_eq!(stream_count(&StreamParams { seed: None, count: None }), 20);
    assert_eq!(stream_count(&StreamParams { seed: Some(1), count: Some(0) }), 1);
    assert_eq!(stream_count(&StreamParams { seed: None, count: Some(5000) }), 1000);
    assert_eq!(stream_count(&StreamParams { seed: None, count: Some(7) }), 7);
    match report_not_found("abc") {
        ApiError::NotFound(m) => assert_eq!(m, "Report abc not found. Run POST /v1/stress-test first"),
        _ => panic!("wrong refusal"),
    }
}

#[test]
fn certificates() {
    let req = |job: &str, org: &str| CertifyRequest { job_id: job.to_string(), organization: org.to_string() };
    match certify(&req(" ", "  ")) {
        Err(ApiError::BadRequest(m)) => assert_eq!(m, "organization required"),
        _ => panic!("blank organization accepted"),
    }
    match certify(&req("\t", "Acme")) {
        Err(ApiError::BadRequest(m)) => assert_eq!(m, "job_id required"),
        _ => panic!("blank job accepted"),
    }
    let c = issue_certificate(&req("abcdefghijkl", "Acme"), "20240131", "2024-04-30T00:00:00+00:00".to_string()).ok().unwrap();
    assert_eq!(c.certificate_id, "ZEVQ-CERT-20240131-abcdefgh");
    assert_eq!(c.status, "issued");
    assert_eq!(c.message, "DASE Certificate issued for Acme. Deterministic verification complete.");
    assert_eq!(c.valid_until, "2024-04-30T00:00:00+00:00");
    assert_eq!(c.dase_score_required, 850);
    let short = issue_certificate(&req("ab", "Acme"), "20240131", String::new()).ok().unwrap();
    assert_eq!(short.certificate_id, "ZEVQ-CERT-20240131-ab");
    let before = chrono::Utc::now();
    let live = certify(&req("0123456789", " Acme ")).ok().unwrap();
    let after = chrono::Utc::now();
    let stamp = &live.certificate_id["ZEVQ-CERT-".len()..live.certificate_id.len() - "-01234567".len()];
    let today = [before, after].map(|t| t.format("%Y%m%d").to_string());
    assert!(today.iter().any(|d| d == stamp));
    assert!(live.certificate_id.ends_with("-01234567"));
    assert_eq!(live.message, "DASE Certificate issued for  Acme . Deterministic verification complete.");
    let until = chrono::DateTime::parse_from_rfc3339(&live.valid_until).unwrap();
    assert!(until >= before + chrono::TimeDelta::days(90));
    assert!(until <= after + chrono::TimeDelta::days(90));
}

#[test]
fn date_stamps_follow_the_year_month_day_format() {
    assert_eq!(date_stamp(2024, 1, 5), "20240105");
    assert_eq!(date_stamp(999, 12, 31), "09991231");
    assert_eq!(date_stamp(5, 2, 9), "00050209");
    assert_eq!(date_stamp(-1, 1, 1), "-00010101");
    assert_eq!(date_stamp(12345, 6, 7), "+123450607");
    for secs in [0i64, 86_399, 86_400, 951_782_400, 1_709_164_800, -1, -62_135_596_801, 253_402_300_800] {
        let t = chrono::DateTime::from_timestamp(secs, 0).unwrap();
        assert_eq!(stamp_at(secs).unwrap(), t.format("%Y%m%d").to_string());
    }
    assert_eq!(stamp_at(-8_334_601_228_800).unwrap(), "-2621430101");
    assert!(stamp_at(-8_334_601_228_801).is_none());
    assert_eq!(stamp_at(8_210_266_876_799).unwrap(), "+2621421231");
    assert!(stamp_at(8_210_266_876_800).is_none());
}

#[test]
fn validity_is_ninety_days_later() {
    assert_eq!(valid_until_at(0, 0).unwrap(), "1970-04-01T00:00:00+00:00");
    assert_eq!(valid_until_at(1_700_000_000, 5).unwrap(), "2024-02-12T22:13:20.000000005+00:00");
    assert!(valid_until_at(8_210_266_876_799 - 7_776_000, 0).is_some());
    assert!(valid_until_at(8_210_266_876_800 - 7_776_000, 0).is_none());
    assert!(valid_until_at(i64::MAX, 0).is_none());
    assert!(valid_until_at(59 - 7_776_000, 1_500_000_000).is_some());
    assert!(valid_until_at(58 - 7_776_000, 1_500_000_000).is_none());
    assert!(valid_until_at(0, 2_000_000_000).is_none());
}

#[test]
fn white_space_matches_std() {
    for u in 0..=0x10FFFFu32 {
        if let Some(c) = char::from_u32(u) {
            assert_eq!(is_white_space(c), c.is_whitespace(), "{u:#x}");
        }
    }
}

#[test]
fn certificate_for_a_given_clock_reading() {
    let req = |job: &str, org: &str| CertifyRequest { job_id: job.to_string(), organization: org.to_string() };
    let c = certify_at(&req("abcdefghijkl", "Acme"), 1_700_000_000, 0).ok().unwrap();
    assert_eq!(c.certificate_id, "ZEVQ-CERT-20231114-abcdefgh");
    assert_eq!(c.valid_until, "2024-02-12T22:13:20+00:00");
    assert_eq!(c.status, "issued");
    assert_eq!(c.dase_score_required, 850);
    assert_eq!(c.message, "DASE Certificate issued for Acme. Deterministic verification complete.");
    let leap = certify_at(&req("job", "Acme"), 59, 1_500_000_000).ok().unwrap();
    assert_eq!(leap.certificate_id, "ZEVQ-CERT-19700101-job");
    match certify_at(&req("job", "Acme"), 8_210_266_876_799, 0) {
        Err(ApiError::Internal(_)) => {}
        _ => panic!("validity beyond the calendar accepted"),
    }
    match certify_at(&req("job", "Acme"), -8_334_601_228_801, 0) {
        Err(ApiError::Internal(_)) => {}
        _ => panic!("date beyond the calendar accepted"),
    }
    match certify_at(&req("job", ""), i64::MAX, 0) {
        Err(ApiError::BadRequest(m)) => assert_eq!(m, "organization required"),
        _ => panic!("blank organization accepted"),
    }
    match certify_at(&req(" ", "Acme"), 0, 0) {
        Err(ApiError::BadRequest(m)) => assert_eq!(m, "job_id required"),
        _ => panic!("blank job accepted"),
    }
}

#[test]
fn engine_ids_are_version_4_uuids() {
    for t in quick_generate(50, 7) {
        let id: Vec<char> = t.id.chars().collect();
        assert!(is_uuid_text(&t.id));
        assert_eq!(id[14], '4');
        assert!("89ab".contains(id[19]));
    }
    let r = StressTestReport::new(Vec::new(), 0);
    assert_eq!((r.job_id >> 76) & 0xf, 4);
    assert_eq!((r.job_id >> 62) & 0x3, 2);
}

#[test]
fn report_at_given_id_and_time() {
    let at = UtcInstant { secs: 1_700_000_000, nanos: 5 };
    let r = StressTestReport::new_at(vec![result_of(9, false), result_of(7, true)], 700, 0x1234, at);
    assert_eq!(r.job_id, 0x1234);
    assert_eq!(r.timestamp, at);
    assert_eq!((r.traps_generated, r.traps_failed, r.dase_score), (2, 1, 700));
    assert!(!r.certificate_eligible);
    let fresh = StressTestReport::new(vec![result_of(9, false), result_of(7, true)], 700);
    assert_eq!(fresh.telemetry_hash, r.telemetry_hash);
    assert_eq!(fresh.grade, r.grade);
    assert_ne!(fresh.job_id, r.job_id);
}

#[test]
fn verifiers_with_one_seed_judge_alike() {
    let traps = quick_generate(30, 3);
    let none = AnalysisReport::default();
    let mut a = Verifier::new(77);
    let mut b = Verifier::new(77);
    let mut c = Verifier::new(78);
    let mut differ = false;
    for t in &traps {
        let ja = a.judge(t, "x.checked_mul(2)", &none);
        let jb = b.judge(t, "x.checked_mul(2)", &none);
        let jc = c.judge(t, "x.checked_mul(2)", &none);
        assert_eq!(ja, jb);
        differ |= ja.confidence_word != jc.confidence_word;
    }
    assert!(differ);
}

#[test]
fn traps_depend_on_seed_xor_nonce() {
    for (s1, n1) in [(0x55u64, 3u64), (1 << 40, 17), (u64::MAX, 0)] {
        let s2 = s1 ^ 0xff00;
        let n2 = n1 ^ 0xff00;
        let (a, b) = (NullSafetyGenerator.generate(s1, n1), NullSafetyGenerator.generate(s2, n2));
        assert_eq!((&a.code, &a.description, a.severity), (&b.code, &b.description, b.severity));
        let (a, b) = (SqlLogicGenerator.generate(s1, n1), SqlLogicGenerator.generate(s2, n2));
        assert_eq!((&a.code, &a.description, a.severity), (&b.code, &b.description, b.severity));
        let (a, b) = (JoinComplexityGenerator.generate(s1, n1), JoinComplexityGenerator.generate(s2, n2));
        assert_eq!(a.code, b.code);
        assert_eq!(a.description, format!("JOIN trap #{n1}"));
        assert_eq!(b.description, format!("JOIN trap #{n2}"));
        let (a, b) = (ArithmeticEdgeGenerator.generate(s1, n1), ArithmeticEdgeGenerator.generate(s2, n2));
        assert_eq!(a.code, b.code);
        assert_eq!(a.deterministic_seed, s1);
        assert_eq!(b.deterministic_seed, s2);
    }
    let x = BoundaryGenerator.generate(10, 5);
    assert_eq!(x.code, BoundaryGenerator.generate(15, 0).code);
    let y = OverflowGenerator.generate(10, 5);
    assert_eq!(y.code, OverflowGenerator.generate(15, 0).code);
}

#[test]
fn streams_from_one_seed_agree_but_for_ids() {
    let a = quick_generate(40, 2024);
    let b = quick_generate(40, 2024);
    for (x, y) in a.iter().zip(b.iter()) {
        assert_eq!((x.category, x.severity), (y.category, y.severity));
        assert_eq!((&x.code, &x.description, &x.expected_failure), (&y.code, &y.description, &y.expected_failure));
        assert_eq!((x.deterministic_seed, x.generation_nonce), (y.deterministic_seed, y.generation_nonce));
        assert_ne!(x.id, y.id);
    }
}
