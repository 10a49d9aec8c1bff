//! Domain types shared by the operations backend and the console: roles,
//! statuses, the quality score, the API envelope and pagination.

pub mod rules;

use vstd::prelude::*;
use crate::decimal::{
    Dec, ceil_units, decimal_product, decimal_sum, floor_units, lemma_p28, lemma_pow10_add,
    lemma_pow10_mono, lemma_pow10_pos, max_mantissa, p28, pow10, sum_fits,
};

verus! {

// ── Role-based access control ────────────────────────────────────────────────

#[derive(Debug, Clone, Copy, PartialEq, Eq, Hash, Structural)]
pub enum UserRole {
    /// Full system access, user management, business rule configuration.
    Admin,
    /// Operations admin: schedules, inventory, all orders.
    OpsAgent,
    /// Customer service: orders search, rebooking, cancellation.
    CsAgent,
    /// Staffing dispatcher: contractor matching, shift management.
    Dispatcher,
    /// Read-only station kiosk (unauthenticated public view).
    Kiosk,
}

/// The wire name of a role.
pub open spec fn role_str(r: UserRole) -> Seq<char> {
    match r {
        UserRole::Admin => "admin"@,
        UserRole::OpsAgent => "ops_agent"@,
        UserRole::CsAgent => "cs_agent"@,
        UserRole::Dispatcher => "dispatcher"@,
        UserRole::Kiosk => "kiosk"@,
    }
}

impl UserRole {
    pub fn as_str(&self) -> (r: &'static str)
        ensures
            r@ == role_str(*self),
    {
        match self {
            UserRole::Admin => "admin",
            UserRole::OpsAgent => "ops_agent",
            UserRole::CsAgent => "cs_agent",
            UserRole::Dispatcher => "dispatcher",
            UserRole::Kiosk => "kiosk",
        }
    }
}

/// Distinct roles have distinct wire names.
pub proof fn lemma_role_str_injective(a: UserRole, b: UserRole)
    requires
        a != b,
    ensures
        role_str(a) != role_str(b),
{
    reveal_strlit("admin");
    reveal_strlit("ops_agent");
    reveal_strlit("cs_agent");
    reveal_strlit("dispatcher");
    reveal_strlit("kiosk");
    assert(role_str(a).len() != role_str(b).len() || role_str(a)[0] != role_str(b)[0]);
}

// ── Order, schedule, staffing, credential and content domains ────────────────

#[derive(Debug, Clone, Copy, PartialEq, Eq, Structural)]
pub enum OrderStatus {
    Pending,
    Confirmed,
    /// Temporarily held; expires after 15 minutes if not confirmed.
    Held,
    Cancelled,
    Refunded,
    Completed,
}

#[derive(Debug, Clone, Copy, PartialEq, Eq, Structural)]
pub enum RefundOutcome {
    /// More than 24 h before departure: fare minus a $5.00 fee.
    FullMinusFee,
    /// 2 to 24 h before departure: 50 % of the fare.
    HalfFare,
    /// Less than 2 h before departure: blocked unless service disruption.
    Blocked,
    /// Service disruption exception applied.
    ServiceDisruption,
}

#[derive(Debug, Clone, Copy, PartialEq, Eq, Structural)]
pub enum ScheduleStatus {
    Scheduled,
    Delayed,
    Cancelled,
    Completed,
}

#[derive(Debug, Clone, Copy, PartialEq, Eq, Structural)]
pub enum ShiftStatus {
    Open,
    Assigned,
    Completed,
    Cancelled,
}

#[derive(Debug, Clone, Copy, PartialEq, Eq, Structural)]
pub enum AssignmentStatus {
    Proposed,
    Accepted,
    Rejected,
}

#[derive(Debug, Clone, Copy, PartialEq, Eq, Structural)]
pub enum CredentialStatus {
    Pending,
    Approved,
    Rejected,
    Expired,
}

#[derive(Debug, Clone, Copy, PartialEq, Eq, Structural)]
pub enum ContentCategory {
    Fares,
    Delays,
    Baggage,
    Accessibility,
    General,
}

// ── Data quality ─────────────────────────────────────────────────────────────

/// Quality score breakdown; each part is between 0 and 100.
#[derive(Debug, Clone, Copy)]
pub struct QualityScore {
    /// Completeness, weighted 50 %.
    pub completeness: Dec,
    /// Accuracy, weighted 30 %.
    pub accuracy: Dec,
    /// Timeliness, weighted 20 %.
    pub timeliness: Dec,
    /// Weighted total; publishing is blocked below 85.
    pub total: Dec,
}

/// A score part lies between 0 and 100.
pub open spec fn is_percentage(d: Dec) -> bool {
    0 <= d.units() <= 100 * p28()
}

/// `(mantissa, scale)` of a decimal.
pub open spec fn parts(d: Dec) -> (int, nat) {
    (d.m(), d.s())
}

/// The total that `QualityScore::compute` forms with `rust_decimal`:
/// `completeness * 0.50 + accuracy * 0.30 + timeliness * 0.20`, added left to
/// right.
pub open spec fn weighted_total(c: Dec, a: Dec, t: Dec) -> (int, nat) {
    let p1 = decimal_product(c.m(), c.s(), 50, 2);
    let p2 = decimal_product(a.m(), a.s(), 30, 2);
    let p3 = decimal_product(t.m(), t.s(), 20, 2);
    let q = decimal_sum(p1.0, p1.1, p2.0, p2.1);
    decimal_sum(q.0, q.1, p3.0, p3.1)
}

/// The exact weighted score, times 100, in units of `10^-28`.
pub open spec fn weighted_units_x100(c: Dec, a: Dec, t: Dec) -> int {
    50 * c.units() + 30 * a.units() + 20 * t.units()
}

/// The weights add up to the whole: the exact weighted score lies between
/// the smallest and the largest part, so parts all at or above a bound give
/// a score at or above it, and parts all below a bound a score below it.
pub proof fn law_weighted_score_between_parts(c: Dec, a: Dec, t: Dec, lo: int, hi: int)
    requires
        lo <= c.units() <= hi,
        lo <= a.units() <= hi,
        lo <= t.units() <= hi,
    ensures
        100 * lo <= weighted_units_x100(c, a, t) <= 100 * hi,
{
}

/// Publishing threshold of the quality total.
pub const PUBLISH_THRESHOLD: u32 = 85;

/// A weight `w / 100` as a decimal, and what its units are.
fn weight(w: i64) -> (r: Dec)
    requires
        0 <= w <= 100,
    ensures
        r.m() == w,
        r.s() == 2,
        r.units() * 100 == w * p28(),
{
    let r = Dec::new(w, 2);
    proof {
        lemma_p28();
        assert(r.units() == w * pow10(26));
        assert(r.units() * 100 == w * (pow10(26) * 100)) by (nonlinear_arith)
            requires
                r.units() == w * pow10(26),
        ;
    }
    r
}

/// A part times a weight, with what the product is known to be.
fn weigh(x: Dec, w: i64) -> (r: Dec)
    requires
        is_percentage(x),
        x.s() <= 28,
        1 <= w <= 50,
    ensures
        (r.m(), r.s()) == decimal_product(x.m(), x.s(), w as int, 2),
        -100 * p28() <= r.units() * 100 - w * x.units() <= 100 * p28(),
        0 <= r.units() <= w * p28(),
        x.s() <= 26 && x.m() * w <= max_mantissa() ==> r.units() * 100 == w * x.units() && r.s()
            <= x.s() + 2,
        x.s() <= 24 ==> r.units() * 100 == w * x.units() && r.s() <= 26,
{
    let wd = weight(w);
    let ghost u = x.units();
    proof {
        let wu = wd.units();
        assert(u * wu * 100 == u * w * p28()) by (nonlinear_arith)
            requires
                wu * 100 == w * p28(),
        ;
        assert(-two_pow_95_p28sq() < u * wu < two_pow_95_p28sq()) by (nonlinear_arith)
            requires
                u * wu * 100 == u * w * p28(),
                0 <= u <= 100 * p28(),
                1 <= w <= 50,
                p28() == 10000000000000000000000000000,
                two_pow_95_p28sq() == crate::decimal::two_pow_95() * p28() * p28(),
                crate::decimal::two_pow_95() == 39614081257132168796771975168,
        ;
    }
    let r = x.mul(wd);
    proof {
        let wu = wd.units();
        let ru = r.units();
        let d = ru * 100 - w * u;
        assert(d * p28() == 100 * (ru * p28() - u * wu)) by (nonlinear_arith)
            requires
                d == ru * 100 - w * u,
                u * wu * 100 == u * w * p28(),
        ;
        lemma_div_bound(d, p28(), 100);
        let big = p28() * p28();
        assert(0 <= u * wu <= w * big) by (nonlinear_arith)
            requires
                u * wu * 100 == u * w * p28(),
                0 <= u <= 100 * p28(),
                1 <= w <= 50,
                big == p28() * p28(),
                p28() > 0,
        ;
        lemma_whole_bounds(u * wu, big, w as int);
        lemma_nonneg_mantissa(x);
        if x.s() <= 24 {
            lemma_exact_product(x, w);
        }
        if x.s() <= 26 && x.m() * w <= max_mantissa() {
            if x.m() == 0 {
                assert(u == 0);
            } else {
                assert(0 < x.m() * w) by (nonlinear_arith)
                    requires
                        x.m() > 0,
                        w >= 1,
                ;
                let y = pow10((26 - x.s()) as nat);
                lemma_pow10_add((26 - x.s()) as nat, 2);
                reveal_with_fuel(pow10, 3);
                assert(ru == x.m() * w * y);
                assert(u == x.m() * (y * 100));
                assert(ru * 100 == w * u) by (nonlinear_arith)
                    requires
                        ru == x.m() * w * y,
                        u == x.m() * (y * 100),
                ;
            }
        }
    }
    r
}

/// The whole numbers just below and just above `x / d`, for `0 <= x <= k d`,
/// lie between 0 and `k`.
proof fn lemma_whole_bounds(x: int, d: int, k: int)
    requires
        d > 0,
        0 <= x <= k * d,
    ensures
        0 <= floor_units(x, d),
        ceil_units(x, d) <= k * p28(),
{
    assert(0 <= x / d) by (nonlinear_arith)
        requires
            d > 0,
            0 <= x,
    ;
    assert((x + d - 1) / d <= k) by (nonlinear_arith)
        requires
            d > 0,
            0 <= x <= k * d,
    ;
    assert(0 <= (x / d) * p28()) by (nonlinear_arith)
        requires
            0 <= x / d,
            p28() > 0,
    ;
    assert(((x + d - 1) / d) * p28() <= k * p28()) by (nonlinear_arith)
        requires
            (x + d - 1) / d <= k,
            p28() > 0,
    ;
}

/// A zero mantissa is a zero value.
proof fn lemma_zero_units(x: Dec)
    ensures
        x.m() == 0 ==> x.units() == 0,
{
    let y = pow10((28 - x.s()) as nat);
    assert(x.m() == 0 ==> x.m() * y == 0) by (nonlinear_arith);
}

/// A part between 0 and 100 has a mantissa of at least 0.
proof fn lemma_nonneg_mantissa(x: Dec)
    requires
        is_percentage(x),
    ensures
        x.m() >= 0,
{
    lemma_pow10_pos((28 - x.s()) as nat);
    let y = pow10((28 - x.s()) as nat);
    assert(x.m() >= 0) by (nonlinear_arith)
        requires
            x.m() * y >= 0,
            y >= 1,
    ;
}

spec fn two_pow_95_p28sq() -> int {
    crate::decimal::two_pow_95() * p28() * p28()
}

/// With at most 24 decimal places, a part between 0 and 100 times a weight
/// of at most 50 hundredths fits exactly.
proof fn lemma_exact_product(x: Dec, w: i64)
    requires
        is_percentage(x),
        x.s() <= 24,
        1 <= w <= 50,
    ensures
        -max_mantissa() <= x.m() * w <= max_mantissa(),
        x.s() + 2 <= 28,
{
    let e = (28 - x.s()) as nat;
    lemma_pow10_mono(4, e);
    reveal_with_fuel(pow10, 5);
    let y = pow10(e);
    assert(0 <= x.m() * 10000 <= 100 * p28()) by (nonlinear_arith)
        requires
            0 <= x.m() * y <= 100 * p28(),
            y >= 10000,
    ;
    assert(0 <= x.m() * w <= 5000000000000000000000000000) by (nonlinear_arith)
        requires
            0 <= x.m() * 10000 <= 100 * p28(),
            1 <= w <= 50,
            p28() == 10000000000000000000000000000,
    ;
}

/// Dividing a two-sided bound by a positive factor.
proof fn lemma_div_bound(d: int, p: int, k: int)
    requires
        p > 0,
        k >= 0,
        -k * p * p <= d * p <= k * p * p,
    ensures
        -k * p <= d <= k * p,
{
    assert((d - k * p) * p <= 0 && (d + k * p) * p >= 0) by (nonlinear_arith)
        requires
            -k * p * p <= d * p <= k * p * p,
    ;
    assert(d - k * p <= 0 && d + k * p >= 0) by (nonlinear_arith)
        requires
            (d - k * p) * p <= 0,
            (d + k * p) * p >= 0,
            p > 0,
    ;
    assert(-k * p == -(k * p)) by (nonlinear_arith);
}

/// The largest number of decimal places among the three parts.
pub open spec fn max_scale(c: Dec, a: Dec, t: Dec) -> nat {
    let ca = if c.s() >= a.s() {
        c.s()
    } else {
        a.s()
    };
    if ca >= t.s() {
        ca
    } else {
        t.s()
    }
}

/// Every step of the weighting fits without rounding: each part has at most
/// 26 decimal places, each part's mantissa times its weight in hundredths
/// fits in 96 bits, and the exact weighted score fits in 96 bits at two
/// places more than the finest part.
pub open spec fn exact_weighting(c: Dec, a: Dec, t: Dec) -> bool {
    &&& c.s() <= 26 && a.s() <= 26 && t.s() <= 26
    &&& c.m() * 50 <= max_mantissa()
    &&& a.m() * 30 <= max_mantissa()
    &&& t.m() * 20 <= max_mantissa()
    &&& weighted_units_x100(c, a, t) <= 100 * max_mantissa() * pow10(
        (28 - (max_scale(c, a, t) + 2)) as nat,
    )
}

impl QualityScore {
    /// The quality score of three parts, each between 0 and 100, weighted
    /// 50 % completeness, 30 % accuracy and 20 % timeliness.
    ///
    /// The total is what `rust_decimal` computes for
    /// `completeness * 0.50 + accuracy * 0.30 + timeliness * 0.20`. It lies
    /// between 0 and 100 and within 5 of the exact weighted score, and it is
    /// that score exactly whenever every step fits without rounding (in
    /// particular whenever no part has more than 24 decimal places); three
    /// equal parts then give that part as the total.
    pub fn compute(completeness: Dec, accuracy: Dec, timeliness: Dec) -> (r: QualityScore)
        requires
            is_percentage(completeness),
            is_percentage(accuracy),
            is_percentage(timeliness),
        ensures
            r.completeness == completeness,
            r.accuracy == accuracy,
            r.timeliness == timeliness,
            parts(r.total) == weighted_total(completeness, accuracy, timeliness),
            0 <= r.total.units() <= 100 * p28(),
            -500 * p28() <= 100 * r.total.units() - weighted_units_x100(
                completeness,
                accuracy,
                timeliness,
            ) <= 500 * p28(),
            exact_weighting(completeness, accuracy, timeliness) ==> 100 * r.total.units()
                == weighted_units_x100(completeness, accuracy, timeliness),
            completeness.s() <= 24 && accuracy.s() <= 24 && timeliness.s() <= 24 ==> 100
                * r.total.units() == weighted_units_x100(completeness, accuracy, timeliness),
            exact_weighting(completeness, accuracy, timeliness) && completeness.units()
                == accuracy.units() && accuracy.units() == timeliness.units()
                ==> r.total.units() == completeness.units(),
    {
        completeness.scale();
        accuracy.scale();
        timeliness.scale();
        let p1 = weigh(completeness, 50);
        let p2 = weigh(accuracy, 30);
        let p3 = weigh(timeliness, 20);
        let ghost exact = completeness.s() <= 24 && accuracy.s() <= 24 && timeliness.s() <= 24;
        let ghost fits = exact_weighting(completeness, accuracy, timeliness);
        let ghost top = max_scale(completeness, accuracy, timeliness) + 2;
        let q = p1.add(p2);
        proof {
            lemma_whole_bounds(p1.units() + p2.units(), p28(), 80);
            if exact {
                lemma_exact_sum(p1, p2, 80);
            }
            if fits {
                let bound = max_mantissa() * pow10((28 - top) as nat);
                assert(100 * (p1.units() + p2.units() + p3.units()) == weighted_units_x100(
                    completeness,
                    accuracy,
                    timeliness,
                ));
                assert(100 * max_mantissa() * pow10((28 - top) as nat) == 100 * bound) by (
                nonlinear_arith)
                    requires
                        bound == max_mantissa() * pow10((28 - top) as nat),
                ;
                assert(100 * (p1.units() + p2.units()) <= 100 * bound);
                lemma_exact_add(p1, p2, top);
                lemma_zero_units(p1);
                lemma_zero_units(p2);
                assert(q.units() == p1.units() + p2.units());
            }
        }
        let total = q.add(p3);
        proof {
            lemma_whole_bounds(q.units() + p3.units(), p28(), 100);
            if exact {
                lemma_exact_sum(q, p3, 100);
            }
            if fits {
                let bound = max_mantissa() * pow10((28 - top) as nat);
                assert(100 * max_mantissa() * pow10((28 - top) as nat) == 100 * bound) by (
                nonlinear_arith)
                    requires
                        bound == max_mantissa() * pow10((28 - top) as nat),
                ;
                assert(100 * (q.units() + p3.units()) <= 100 * bound);
                lemma_exact_add(q, p3, top);
                lemma_zero_units(q);
                lemma_zero_units(p3);
            }
        }
        QualityScore { completeness, accuracy, timeliness, total }
    }

    /// Whether the total reaches the publishing threshold of 85.
    pub fn is_publishable(&self) -> (r: bool)
        ensures
            r == (self.total.units() >= 85 * p28()),
    {
        let threshold = Dec::new(85, 0);
        proof {
            lemma_p28();
        }
        self.total.ge(&threshold)
    }
}

/// Two summands of at most `top` places, both at least 0 and together
/// fitting in 96 bits at `top` places, fit at the larger of their scales.
proof fn lemma_exact_add(a: Dec, b: Dec, top: nat)
    requires
        a.s() <= top <= 28,
        b.s() <= top,
        a.units() >= 0,
        b.units() >= 0,
        a.units() + b.units() <= max_mantissa() * pow10((28 - top) as nat),
    ensures
        sum_fits(a, b),
{
    let t = if a.s() >= b.s() {
        a.s()
    } else {
        b.s()
    };
    lemma_pow10_mono((28 - top) as nat, (28 - t) as nat);
    lemma_pow10_pos((28 - t) as nat);
    let y1 = pow10((28 - top) as nat);
    let y2 = pow10((28 - t) as nat);
    assert(max_mantissa() * y1 <= max_mantissa() * y2 && 0 <= max_mantissa() * y2) by (
    nonlinear_arith)
        requires
            y1 <= y2,
            y2 >= 1,
            max_mantissa() > 0,
    ;
}

/// Two exactly known summands of at most 26 decimal places, together at most
/// `bound` in value, add exactly.
proof fn lemma_exact_sum(a: Dec, b: Dec, bound: int)
    requires
        a.s() <= 26,
        b.s() <= 26,
        a.units() >= 0,
        b.units() >= 0,
        a.units() + b.units() <= bound * p28(),
        bound <= 100,
    ensures
        sum_fits(a, b),
{
    let t = if a.s() >= b.s() {
        a.s()
    } else {
        b.s()
    };
    lemma_pow10_mono(2, (28 - t) as nat);
    reveal_with_fuel(pow10, 3);
    let y = pow10((28 - t) as nat);
    assert(max_mantissa() * y >= max_mantissa() * 100) by (nonlinear_arith)
        requires
            y >= 100,
            max_mantissa() > 0,
    ;
}

// ── Generic API envelope ─────────────────────────────────────────────────────

/// An error as the backend reports it.
#[derive(Debug, Clone)]
pub struct ApiError {
    pub code: u16,
    pub message: String,
    /// Serialised as `type`.
    pub error_type: String,
}

/// The envelope of every backend response.
#[derive(Debug)]
pub struct ApiResponse<T> {
    pub success: bool,
    pub data: Option<T>,
    pub error: Option<ApiError>,
}

impl<T> ApiResponse<T> {
    /// A successful response carrying `data`.
    pub fn ok(data: T) -> (r: Self)
        ensures
            r.success,
            r.data == Some(data),
            r.error is None,
    {
        ApiResponse { success: true, data: Some(data), error: None }
    }
}

impl ApiResponse<()> {
    /// A failed response carrying an error with the given code, message and
    /// type.
    pub fn err(code: u16, message: &str, error_type: &str) -> (r: Self)
        ensures
            !r.success,
            r.data is None,
            r.error matches Some(e) && e.code == code && e.message@ == message@ && e.error_type@
                == error_type@,
    {
        ApiResponse {
            success: false,
            data: None,
            error: Some(
                ApiError {
                    code,
                    message: message.to_owned(),
                    error_type: error_type.to_owned(),
                },
            ),
        }
    }
}

// ── Pagination ───────────────────────────────────────────────────────────────

#[derive(Debug)]
pub struct PaginatedResponse<T> {
    pub items: Vec<T>,
    pub total: i64,
    pub page: i64,
    pub per_page: i64,
    pub total_pages: i64,
}

/// Optional page and page size of a list request.
#[derive(Debug)]
pub struct PaginationParams {
    pub page: Option<i64>,
    pub per_page: Option<i64>,
}

impl Default for PaginationParams {
    fn default() -> (r: Self)
        ensures
            r.page is None,
            r.per_page is None,
    {
        PaginationParams { page: None, per_page: None }
    }
}

/// The page number asked for: 1 when absent, and never below 1.
pub open spec fn page_of(p: Option<i64>) -> int {
    match p {
        Some(x) => if x < 1 {
            1
        } else {
            x as int
        },
        None => 1,
    }
}

/// The page size asked for: 20 when absent, held between 1 and 100.
pub open spec fn per_page_of(p: Option<i64>) -> int {
    match p {
        Some(x) => if x < 1 {
            1
        } else if x > 100 {
            100
        } else {
            x as int
        },
        None => 20,
    }
}

impl PaginationParams {
    pub fn page(&self) -> (r: i64)
        ensures
            r == page_of(self.page),
            r >= 1,
    {
        let p = match self.page {
            Some(x) => x,
            None => 1,
        };
        if p < 1 {
            1
        } else {
            p
        }
    }

    pub fn per_page(&self) -> (r: i64)
        ensures
            r == per_page_of(self.per_page),
            1 <= r <= 100,
    {
        let p = match self.per_page {
            Some(x) => x,
            None => 20,
        };
        if p < 1 {
            1
        } else if p > 100 {
            100
        } else {
            p
        }
    }

    /// Number of items before the page: `(page - 1) * per_page`.
    pub fn offset(&self) -> (r: i64)
        requires
            (page_of(self.page) - 1) * per_page_of(self.per_page) <= i64::MAX,
        ensures
            r == (page_of(self.page) - 1) * per_page_of(self.per_page),
            r >= 0,
    {
        let page = self.page();
        let per_page = self.per_page();
        assert((page - 1) * per_page >= 0) by (nonlinear_arith)
            requires
                page >= 1,
                per_page >= 1,
        ;
        (page - 1) * per_page
    }
}

// ── Match scoring (staffing) ─────────────────────────────────────────────────

/// A ranked contractor candidate for a shift.
#[derive(Debug)]
pub struct MatchResult {
    /// The contractor's UUID as a 128-bit number.
    pub contractor_id: u128,
    pub score: Dec,
    /// Exactly three reasons why this candidate was ranked.
    pub top_reasons: [String; 3],
}

// ── PII masking ──────────────────────────────────────────────────────────────

/// A phone number masked to the display format `(XXX) XXX-1234`.
pub fn mask_phone(last4: &str) -> (r: String)
    ensures
        r@ == "(XXX) XXX-"@ + last4@,
{
    let mut s = "(XXX) XXX-".to_owned();
    s.append(last4);
    s
}

} // verus!
