//! Business rule constants.

use vstd::prelude::*;
use crate::decimal::Dec;

verus! {

/// Hold expires after this many minutes if the order is not confirmed.
pub const ORDER_HOLD_TTL_MINUTES: u64 = 15;

/// Refund processing fee for full refunds, in dollars.
pub const REFUND_PROCESSING_FEE_USD: &'static str = "5.00";

/// Full-refund window: more than this many hours before departure.
pub const FULL_REFUND_HOURS: i64 = 24;

/// Partial-refund window: 2 to 24 hours before departure.
pub const PARTIAL_REFUND_HOURS: i64 = 2;

/// Refund percentage in the partial window.
pub const PARTIAL_REFUND_PCT: u32 = 50;

/// Minimum password length.
pub const MIN_PASSWORD_LEN: usize = 12;

/// Failed login attempts before lockout.
pub const MAX_FAILED_LOGINS: u32 = 5;

/// Lockout duration in minutes.
pub const LOCKOUT_MINUTES: u64 = 15;

/// Idle session expiry in minutes.
pub const SESSION_IDLE_MINUTES: u64 = 30;

/// API rate limit per session per minute.
pub const RATE_LIMIT_RPM: u32 = 60;

/// Quality score below which publishing is blocked.
pub const QUALITY_PUBLISH_THRESHOLD: u32 = 85;

/// Default global crawl concurrency cap.
pub const CRAWL_MAX_WORKERS: usize = 10;

/// PII purge deadline after trip completion, in days.
pub const PII_PURGE_DAYS: i64 = 30;

/// Audit log retention, in years.
pub const AUDIT_RETENTION_YEARS: i64 = 7;

/// Maximum file upload size (10 MB).
pub const MAX_UPLOAD_BYTES: u64 = 10 * 1024 * 1024;

/// Content similarity at or above which content is quarantined: 0.92.
pub fn similarity_quarantine() -> (r: Dec)
    ensures
        r.m() == 92,
        r.s() == 2,
{
    Dec::new(92, 2)
}

/// Default crawl rate limit, requests per second per source: 2.0.
pub fn crawl_rate_limit_rps() -> (r: Dec)
    ensures
        r.m() == 20,
        r.s() == 1,
{
    Dec::new(20, 1)
}

/// Fraction of records sampled per batch for review: 0.02.
pub fn sample_review_pct() -> (r: Dec)
    ensures
        r.m() == 2,
        r.s() == 2,
{
    Dec::new(2, 2)
}

} // verus!
