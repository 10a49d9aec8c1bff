use railops::decimal::Dec;
use railops::shared::rules::{
    crawl_rate_limit_rps, sample_review_pct, similarity_quarantine, FULL_REFUND_HOURS,
    MAX_FAILED_LOGINS, MIN_PASSWORD_LEN, PARTIAL_REFUND_HOURS, PARTIAL_REFUND_PCT,
    QUALITY_PUBLISH_THRESHOLD,
};
use railops::shared::{
    mask_phone, ApiResponse, MatchResult, PaginationParams, QualityScore, UserRole,
};

#[test]
fn quality_score_compute_weights() {
    let s = QualityScore::compute(Dec::new(100, 0), Dec::new(100, 0), Dec::new(100, 0));
    assert_eq!(s.total, Dec::new(100, 0), "all-100 inputs → 100 total");
    let z = QualityScore::compute(Dec::zero(), Dec::zero(), Dec::zero());
    assert_eq!(z.total, Dec::zero(), "all-zero inputs → 0 total");
}

#[test]
fn quality_score_weighted_formula() {
    let s = QualityScore::compute(Dec::new(80, 0), Dec::new(60, 0), Dec::new(40, 0));
    assert_eq!(s.total, Dec::new(66, 0), "weighted total must equal 66");
    assert_eq!(s.completeness, Dec::new(80, 0));
    assert_eq!(s.accuracy, Dec::new(60, 0));
    assert_eq!(s.timeliness, Dec::new(40, 0));
}

#[test]
fn quality_score_publishable_threshold() {
    let at_threshold = QualityScore::compute(Dec::new(85, 0), Dec::new(85, 0), Dec::new(85, 0));
    assert!(at_threshold.is_publishable(), "score == 85 should be publishable");
    let below = QualityScore::compute(Dec::new(80, 0), Dec::new(80, 0), Dec::new(80, 0));
    assert!(!below.is_publishable(), "score == 80 should NOT be publishable (threshold is 85)");
}

#[test]
fn pagination_params_defaults() {
    let p = PaginationParams::default();
    assert_eq!(p.page(), 1, "default page is 1");
    assert_eq!(p.per_page(), 20, "default per_page is 20");
    assert_eq!(p.offset(), 0, "offset for page 1 is 0");
}

#[test]
fn pagination_params_offset_calculation() {
    let p = PaginationParams { page: Some(3), per_page: Some(10) };
    assert_eq!(p.page(), 3, "page=3");
    assert_eq!(p.per_page(), 10, "per_page=10");
    assert_eq!(p.offset(), 20, "offset for page 3 with per_page 10 is 20");
}

#[test]
fn pagination_params_clamps_per_page() {
    let too_large = PaginationParams { page: Some(1), per_page: Some(500) };
    assert_eq!(too_large.per_page(), 100, "per_page clamped to max 100");
    let zero = PaginationParams { page: Some(1), per_page: Some(0) };
    assert_eq!(zero.per_page(), 1, "per_page clamped to min 1");
}

#[test]
fn pagination_params_page_min_is_one() {
    let negative = PaginationParams { page: Some(-5), per_page: None };
    assert_eq!(negative.page(), 1, "negative page clamped to 1");
}

#[test]
fn mask_phone_formats_last_four() {
    assert_eq!(mask_phone("1234"), "(XXX) XXX-1234");
    assert_eq!(mask_phone("9999"), "(XXX) XXX-9999");
    assert_eq!(mask_phone("0000"), "(XXX) XXX-0000");
}

#[test]
fn rules_constants_sanity() {
    assert!(FULL_REFUND_HOURS > PARTIAL_REFUND_HOURS, "full-refund window must be wider than partial window");
    assert!(PARTIAL_REFUND_PCT <= 100, "partial refund % must not exceed 100");
    assert!(QUALITY_PUBLISH_THRESHOLD <= 100, "quality threshold must be a valid percentage");
    let sim = similarity_quarantine();
    assert!(sim.mantissa() > 0 && Dec::new(1, 0).ge(&sim), "similarity threshold must be in (0, 1]");
    assert!(MIN_PASSWORD_LEN >= 8, "minimum password length must be at least 8");
    assert!(MAX_FAILED_LOGINS >= 3, "lockout threshold must allow at least 3 attempts");
}

#[test]
fn quality_score_fractional_parts() {
    // 90.5 * 0.5 + 70.25 * 0.3 + 33 * 0.2 = 45.25 + 21.075 + 6.6 = 72.925
    let s = QualityScore::compute(Dec::new(905, 1), Dec::new(7025, 2), Dec::new(33, 0));
    assert_eq!(s.total, Dec::new(72925, 3));
    assert!(!s.is_publishable());
}

#[test]
fn quality_score_just_above_threshold() {
    // 85.01 everywhere → 85.01
    let s = QualityScore::compute(Dec::new(8501, 2), Dec::new(8501, 2), Dec::new(8501, 2));
    assert_eq!(s.total, Dec::new(8501, 2));
    assert!(s.is_publishable());
    let t = QualityScore::compute(Dec::new(8499, 2), Dec::new(8499, 2), Dec::new(8499, 2));
    assert!(!t.is_publishable());
}

#[test]
fn decimal_equality_ignores_scale() {
    assert_eq!(Dec::new(6600, 2), Dec::new(66, 0));
    assert_ne!(Dec::new(6601, 2), Dec::new(66, 0));
}

#[test]
fn decimal_product_and_sum() {
    let p = Dec::new(15, 1).mul(Dec::new(2, 0));
    assert_eq!(p, Dec::new(3, 0));
    let q = Dec::new(15, 1).add(Dec::new(25, 2));
    assert_eq!(q, Dec::new(175, 2));
    assert!(Dec::new(2, 0).ge(&Dec::new(19999, 4)));
    assert!(!Dec::new(19999, 4).ge(&Dec::new(2, 0)));
}

#[test]
fn rules_float_constants_as_decimals() {
    assert_eq!(similarity_quarantine(), Dec::new(92, 2));
    assert_eq!(crawl_rate_limit_rps(), Dec::new(2, 0));
    assert_eq!(sample_review_pct(), Dec::new(2, 2));
}

#[test]
fn pagination_offset_large_page() {
    let p = PaginationParams { page: Some(7), per_page: Some(100) };
    assert_eq!(p.offset(), 600);
    let q = PaginationParams { page: Some(0), per_page: Some(-3) };
    assert_eq!(q.page(), 1);
    assert_eq!(q.per_page(), 1);
    assert_eq!(q.offset(), 0);
}

#[test]
fn mask_phone_keeps_any_text() {
    assert_eq!(mask_phone(""), "(XXX) XXX-");
    assert_eq!(mask_phone("12"), "(XXX) XXX-12");
}

#[test]
fn user_role_wire_names() {
    assert_eq!(UserRole::Admin.as_str(), "admin");
    assert_eq!(UserRole::OpsAgent.as_str(), "ops_agent");
    assert_eq!(UserRole::CsAgent.as_str(), "cs_agent");
    assert_eq!(UserRole::Dispatcher.as_str(), "dispatcher");
    assert_eq!(UserRole::Kiosk.as_str(), "kiosk");
}

#[test]
fn api_response_envelopes() {
    let ok = ApiResponse::ok(7u32);
    assert!(ok.success);
    assert_eq!(ok.data, Some(7));
    assert!(ok.error.is_none());
    let err = ApiResponse::err(404, "missing", "not_found");
    assert!(!err.success);
    assert!(err.data.is_none());
    let e = err.error.unwrap();
    assert_eq!(e.code, 404);
    assert_eq!(e.message, "missing");
    assert_eq!(e.error_type, "not_found");
}

#[test]
fn match_result_holds_three_reasons() {
    let m = MatchResult {
        contractor_id: 1,
        score: Dec::new(925, 1),
        top_reasons: ["a".to_owned(), "b".to_owned(), "c".to_owned()],
    };
    assert_eq!(m.top_reasons.len(), 3);
    assert_eq!(m.score, Dec::new(9250, 2));
}

#[test]
fn quality_score_equal_parts_and_bounds() {
    let x = Dec::new(8525, 2);
    let s = QualityScore::compute(x, x, x);
    assert_eq!(s.total, x);
    // 26 decimal places: every step still fits, so the total is exact.
    let fine = Dec::from_i128_with_scale(123456789012345678901234567, 26);
    assert_eq!(QualityScore::compute(fine, fine, fine).total, fine);
    // The smallest positive part rounds away, yet the total stays in 0..=100.
    let tiny = Dec::from_i128_with_scale(1, 28);
    let t = QualityScore::compute(tiny, tiny, tiny).total;
    assert!(t.ge(&Dec::zero()) && Dec::new(100, 0).ge(&t));
    let top = QualityScore::compute(Dec::new(100, 0), Dec::new(100, 0), Dec::new(100, 0)).total;
    assert!(Dec::new(100, 0).ge(&top));
}
