use prompt_sanitizer::contract::{
    check_response, confidence_is_valid, finding_is_valid, stats_are_consistent, Finding,
    Response, Stats,
};

fn finding(start: usize, end: usize, confidence: f64, risk: i32) -> Finding {
    Finding {
        type_: "email".to_string(),
        start,
        end,
        confidence_bits: confidence.to_bits(),
        risk,
        replacement: "[EMAIL]".to_string(),
        replacement_preview: "[EM…]".to_string(),
        reason: "looks like an address".to_string(),
    }
}

fn response(findings: Vec<Finding>, stats: Stats) -> Response {
    Response {
        sanitized_text: "mail [EMAIL] now".to_string(),
        findings,
        stats,
        risk_score: 40,
        version: "1.2.0".to_string(),
    }
}

fn stats(total: i32, cats: Vec<(&str, i32)>, high: i32, medium: i32, low: i32) -> Stats {
    Stats {
        total_findings: total,
        by_category: cats.into_iter().map(|(k, v)| (k.to_string(), v)).collect(),
        high_risk_count: high,
        medium_risk_count: medium,
        low_risk_count: low,
    }
}

#[test]
fn confidence_bounds() {
    assert!(confidence_is_valid(0.0f64.to_bits()));
    assert!(confidence_is_valid((-0.0f64).to_bits()));
    assert!(confidence_is_valid(0.5f64.to_bits()));
    assert!(confidence_is_valid(1.0f64.to_bits()));
    assert!(!confidence_is_valid(1.0000001f64.to_bits()));
    assert!(!confidence_is_valid((-0.1f64).to_bits()));
    assert!(!confidence_is_valid(f64::NAN.to_bits()));
    assert!(!confidence_is_valid(f64::INFINITY.to_bits()));
}

#[test]
fn finding_span_bounds() {
    assert!(finding_is_valid(&finding(5, 12, 0.9, 3), 16));
    assert!(finding_is_valid(&finding(16, 16, 0.9, 3), 16));
    assert!(!finding_is_valid(&finding(12, 5, 0.9, 3), 16));
    assert!(!finding_is_valid(&finding(5, 17, 0.9, 3), 16));
    assert!(!finding_is_valid(&finding(5, 12, 1.5, 3), 16));
}

#[test]
fn well_formed_response_passes() {
    let r = response(
        vec![finding(5, 12, 0.9, 8), finding(0, 4, 0.3, 1)],
        stats(2, vec![("email", 1), ("name", 1)], 1, 0, 1),
    );
    assert!(check_response(&r, 16));
    assert_eq!(r.stats.total_findings as usize, r.findings.len());
    assert_eq!(
        r.stats.high_risk_count + r.stats.medium_risk_count + r.stats.low_risk_count,
        r.stats.total_findings
    );
}

#[test]
fn empty_response_passes() {
    let r = response(vec![], stats(0, vec![], 0, 0, 0));
    assert!(check_response(&r, 0));
}

#[test]
fn total_must_match_findings() {
    let r = response(vec![finding(5, 12, 0.9, 8)], stats(2, vec![("email", 2)], 2, 0, 0));
    assert!(!check_response(&r, 16));
}

#[test]
fn risk_buckets_must_partition_total() {
    let s = stats(2, vec![("email", 2)], 1, 1, 1);
    assert!(!stats_are_consistent(&s, 2));
    let neg = stats(2, vec![("email", 2)], 3, -1, 0);
    assert!(!stats_are_consistent(&neg, 2));
}

#[test]
fn category_counts_must_sum_to_total() {
    assert!(!stats_are_consistent(&stats(2, vec![("email", 1)], 2, 0, 0), 2));
    assert!(!stats_are_consistent(&stats(2, vec![("email", 3), ("x", -1)], 2, 0, 0), 2));
    assert!(!stats_are_consistent(&stats(2, vec![("email", i32::MAX), ("x", 1)], 2, 0, 0), 2));
}

#[test]
fn category_tags_must_be_distinct() {
    assert!(!stats_are_consistent(&stats(2, vec![("email", 1), ("email", 1)], 2, 0, 0), 2));
    assert!(stats_are_consistent(&stats(2, vec![("email", 1), ("phone", 1)], 2, 0, 0), 2));
}

#[test]
fn finding_outside_source_fails_response() {
    let r = response(vec![finding(5, 40, 0.9, 8)], stats(1, vec![("email", 1)], 1, 0, 0));
    assert!(!check_response(&r, 16));
}
