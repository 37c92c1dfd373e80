use std::collections::HashSet;

use zevq::analyzer::{analyze_code, SyntaxFacts};
use zevq::generator::quick_generate;
use zevq::scorer::{fixed_score, grade_from_score};
use zevq::verdict::Verifier;
use zevq::TrapResult;

const SAFE: &str = "fn f(o: Option<i32>){ if let Some(v)=o { let _=v; } }";

#[test]
fn test_detect_unwrap_via_syn() {
    // The syntax walk of this program finds one method call, named `unwrap`.
    let code = "fn f(o: Option<i32>){ let _ = o.unwrap(); }";
    let facts = Some(SyntaxFacts {
        calls_unwrap: true,
        calls_expect: false,
        get_calls: 0,
        has_index: false,
        if_exprs: 0,
    });
    let r = analyze_code(code, &facts);
    assert!(r.has_unsafe_unwrap);
}

#[test]
fn test_safe_code() {
    // The syntax walk of this program finds one `if let` expression and no method call.
    let facts = Some(SyntaxFacts {
        calls_unwrap: false,
        calls_expect: false,
        get_calls: 0,
        has_index: false,
        if_exprs: 1,
    });
    let r = analyze_code(SAFE, &facts);
    assert!(r.safe_guards > 0);
    assert!(!r.has_unsafe_unwrap);
}

#[test]
fn test_deterministic() {
    let a = quick_generate(20, 12345);
    let b = quick_generate(20, 12345);
    assert_eq!(a.len(), b.len());
    for (x, y) in a.iter().zip(b.iter()) {
        assert_eq!(x.code, y.code);
    }
}

#[test]
fn test_unique() {
    let traps = quick_generate(100, 999);
    let codes: HashSet<_> = traps.iter().map(|t| &t.code).collect();
    assert!(codes.len() > 80);
}

#[test]
fn perfect_empty() {
    let none: Vec<TrapResult> = Vec::new();
    assert_eq!(fixed_score(&none), Some(1000));
}

#[test]
fn grade_bounds() {
    assert!(grade_from_score(950).contains("S-Tier"));
}

#[test]
fn deterministic_verify() {
    let traps = quick_generate(5, 42);
    let facts = Some(SyntaxFacts {
        calls_unwrap: false,
        calls_expect: false,
        get_calls: 0,
        has_index: false,
        if_exprs: 1,
    });
    let analysis = analyze_code(SAFE, &facts);
    let mut v1 = Verifier::new(1);
    let mut v2 = Verifier::new(1);
    let r1 = v1.judge(&traps[0], SAFE, &analysis);
    let r2 = v2.judge(&traps[0], SAFE, &analysis);
    assert_eq!(r1.passed, r2.passed);
}
