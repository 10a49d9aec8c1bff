//! Operations console: schedules, inventory, passengers and orders — the
//! response shapes, their display helpers and the signed endpoints' paths.

use vstd::prelude::*;
use crate::api::kiosk::{month_abbr, month_abbr_exec, nonempty_param, opt_view, push_nonempty_param};
use crate::text::{
    byte_len_below, chars_of, int_digits, is_boundary, locate_byte, parse_u32,
    parse_u32_spec, push_char, push_chars, push_i64, skip_leading, split_chars, split_on,
    str_eq, trim_start_char, utf8_len, char_index, lemma_utf8_len_take_mono,
};
use crate::uri::{push_uri_component, uri_component};

verus! {

// ── Pagination ───────────────────────────────────────────────────────────────

/// One page of a listing.
#[derive(Debug, Clone, PartialEq)]
pub struct Page<T> {
    pub items: Vec<T>,
    pub total: i64,
    pub page: i64,
    pub per_page: i64,
    pub total_pages: i64,
}

// ── Reference data ───────────────────────────────────────────────────────────

#[derive(Debug, Clone, PartialEq)]
pub struct RouteItem {
    pub id: String,
    pub route_code: String,
    pub name: String,
    pub origin_city: String,
    pub destination_city: String,
    pub is_active: bool,
}

#[derive(Debug, Clone, PartialEq)]
pub struct SeatClassItem {
    pub id: String,
    pub name: String,
    pub code: String,
    /// Decimal fare as the backend renders it.
    pub base_fare: String,
}

// ── Dates ────────────────────────────────────────────────────────────────────

/// The short label `"Mon D HH:MM"` of an ISO-8601 date-time: text shorter
/// than 16 bytes is returned as it is; otherwise bytes 0..10 are the date and
/// bytes 11..16 the time; the date is split at `-`, and with fewer than three
/// pieces the text is returned as it is; the month is the second piece read
/// as a number (`"???"` when it is not a month) and the day is the third
/// piece without leading zeros.
pub open spec fn fmt_dt_spec(iso: Seq<char>) -> Seq<char> {
    if utf8_len(iso) < 16 {
        iso
    } else {
        let date = iso.subrange(0, char_index(iso, 10));
        let time = iso.subrange(char_index(iso, 11), char_index(iso, 16));
        let parts = split_on(date, '-');
        if parts.len() < 3 {
            iso
        } else {
            let month = match parse_u32_spec(parts[1]) {
                Some(m) => m,
                None => 0,
            };
            let name = match month_abbr(month) {
                Some(n) => n,
                None => "???"@,
            };
            name + seq![' '] + trim_start_char(parts[2], '0') + seq![' '] + time
        }
    }
}

/// `&iso[..10]` and `&iso[11..16]` can be taken: the label is cut at these
/// byte offsets, and a cut off a character boundary would panic.
pub open spec fn fmt_dt_sliceable(iso: Seq<char>) -> bool {
    utf8_len(iso) >= 16 ==> is_boundary(iso, 10) && is_boundary(iso, 11) && is_boundary(iso, 16)
}

/// Short label of an ISO-8601 date-time, e.g. `"2024-06-15T09:30:00Z"` gives
/// `"Jun 15 09:30"`.
pub fn fmt_dt(iso: &str) -> (r: String)
    requires
        fmt_dt_sliceable(iso@),
    ensures
        r@ == fmt_dt_spec(iso@),
{
    let v = chars_of(iso);
    if byte_len_below(&v, 16) {
        return iso.to_owned();
    }
    let (j10, _) = locate_byte(&v, 10);
    let (j11, _) = locate_byte(&v, 11);
    let (j16, _) = locate_byte(&v, 16);
    proof {
        if j11 > j16 {
            lemma_utf8_len_take_mono(v@, j16 as int, j11 as int);
        }
    }
    let mut date: Vec<char> = Vec::new();
    push_prefix(&mut date, &v, j10);
    let parts = split_chars(&date, '-');
    if parts.len() < 3 {
        return iso.to_owned();
    }
    let month = match parse_u32(&parts[1]) {
        Some(m) => m,
        None => 0,
    };
    let name = match month_abbr_exec(month) {
        Some(n) => n,
        None => "???",
    };
    let mut s = name.to_owned();
    push_char(&mut s, ' ');
    let k = skip_leading(&parts[2], '0');
    push_chars(&mut s, &parts[2], k, parts[2].len());
    push_char(&mut s, ' ');
    push_chars(&mut s, &v, j11, j16);
    s
}

/// `out = v[..n]`.
fn push_prefix(out: &mut Vec<char>, v: &Vec<char>, n: usize)
    requires
        old(out)@.len() == 0,
        n <= v@.len(),
    ensures
        final(out)@ == v@.subrange(0, n as int),
{
    let mut i: usize = 0;
    while i < n
        invariant
            i <= n <= v@.len(),
            out@ == v@.subrange(0, i as int),
        decreases n - i,
    {
        out.push(v[i]);
        i = i + 1;
        assert(out@ =~= v@.subrange(0, i as int));
    }
}

// ── Calendar ─────────────────────────────────────────────────────────────────

/// Gregorian leap years: divisible by 4, and not by 100 unless by 400.
pub open spec fn is_leap_year(y: int) -> bool {
    y % 4 == 0 && (y % 100 != 0 || y % 400 == 0)
}

/// Days in month `m` (1–12) of year `y`.
pub open spec fn days_in_month(y: int, m: int) -> int {
    if m == 2 {
        if is_leap_year(y) {
            29
        } else {
            28
        }
    } else if m == 4 || m == 6 || m == 9 || m == 11 {
        30
    } else {
        31
    }
}

/// `y-m-d` names a day of the proleptic Gregorian calendar, from year 1 on.
pub open spec fn is_calendar_date(y: int, m: int, d: int) -> bool {
    1 <= y && 1 <= m <= 12 && 1 <= d <= days_in_month(y, m)
}

/// Days of year `y` before the first of month `m`.
pub open spec fn days_before_month(y: int, m: int) -> int
    decreases m,
{
    if m <= 1 {
        0
    } else {
        days_before_month(y, m - 1) + days_in_month(y, m - 1)
    }
}

/// Days from 1 January of year 1 to `y-m-d`.
pub open spec fn day_number(y: int, m: int, d: int) -> int {
    365 * (y - 1) + (y - 1) / 4 - (y - 1) / 100 + (y - 1) / 400 + days_before_month(y, m) + d - 1
}

/// Abbreviated weekday of the `n`-th day after 1 January of year 1, which
/// was a Monday.
pub open spec fn weekday_abbr(n: int) -> Seq<char> {
    let k = n % 7;
    if k == 0 {
        "Mon"@
    } else if k == 1 {
        "Tue"@
    } else if k == 2 {
        "Wed"@
    } else if k == 3 {
        "Thu"@
    } else if k == 4 {
        "Fri"@
    } else if k == 5 {
        "Sat"@
    } else {
        "Sun"@
    }
}

/// The calendar's months: every month has days 1 to 28; February has a
/// 29th exactly in a leap year (a year divisible by 4, not by 100 unless by
/// 400) and never a 30th; every other month has a 30th; a 31st exactly in
/// January, March, May, July, August, October and December. No month has a
/// 32nd day and no date has a month outside 1 to 12.
pub proof fn law_calendar_month_lengths(y: int, m: int, d: int)
    requires
        y >= 1,
    ensures
        1 <= m <= 12 && 1 <= d <= 28 ==> is_calendar_date(y, m, d),
        is_calendar_date(y, 2, 29) <==> (y % 4 == 0 && (y % 100 != 0 || y % 400 == 0)),
        !is_calendar_date(y, 2, 30),
        1 <= m <= 12 && m != 2 ==> is_calendar_date(y, m, 30),
        is_calendar_date(y, m, 31) <==> (m == 1 || m == 3 || m == 5 || m == 7 || m == 8 || m == 10
            || m == 12),
        !is_calendar_date(y, m, 32),
        is_calendar_date(y, m, d) ==> 1 <= m <= 12 && 1 <= d <= 31,
{
}

/// Days run on without a gap from one year to the next: the day after 31
/// December of a year is 1 January of the next, so a year has 365 days, or
/// 366 in a leap year, and weekdays follow on across the new year.
pub proof fn law_year_runs_into_next(y: int)
    requires
        y >= 1,
    ensures
        day_number(y + 1, 1, 1) == day_number(y, 12, 31) + 1,
        day_number(y + 1, 1, 1) - day_number(y, 1, 1) == if is_leap_year(y) {
            366int
        } else {
            365int
        },
        weekday_abbr(day_number(y + 1, 1, 1)) == weekday_abbr(day_number(y, 12, 31) + 1),
{
    reveal_with_fuel(days_before_month, 13);
    let a = y - 1;
    assert(y / 4 - a / 4 == if y % 4 == 0 { 1int } else { 0int });
    assert(y / 100 - a / 100 == if y % 100 == 0 { 1int } else { 0int });
    assert(y / 400 - a / 400 == if y % 400 == 0 { 1int } else { 0int });
    assert(days_before_month(y, 12) == 334 + if is_leap_year(y) { 1int } else { 0int });
}

/// The weekday advances by one from each day to the next, and the same
/// calendar day has the same weekday every 400 years (146097 days, a whole
/// number of weeks).
pub proof fn law_weekdays_follow_on(y: int, m: int, d: int)
    requires
        y >= 1,
    ensures
        is_calendar_date(y, m, d) && is_calendar_date(y, m, d + 1) ==> day_number(y, m, d + 1)
            == day_number(y, m, d) + 1,
        day_number(y + 400, m, d) == day_number(y, m, d) + 146097,
        weekday_abbr(day_number(y + 400, m, d)) == weekday_abbr(day_number(y, m, d)),
{
    lemma_days_before_month_leap_period(y, m);
    let a = y - 1;
    assert((a + 400) / 4 == a / 4 + 100);
    assert((a + 400) / 100 == a / 100 + 4);
    assert((a + 400) / 400 == a / 400 + 1);
    assert((day_number(y, m, d) + 146097) % 7 == day_number(y, m, d) % 7);
}

/// Years 400 apart have the same months.
proof fn lemma_days_before_month_leap_period(y: int, m: int)
    ensures
        days_before_month(y + 400, m) == days_before_month(y, m),
    decreases m,
{
    if m > 1 {
        lemma_days_before_month_leap_period(y, m - 1);
        assert(is_leap_year(y + 400) == is_leap_year(y));
    }
}

/// The weekday of a year, month and day read from text, or `"???"` when the
/// year or day did not read as a number or the three name no calendar day.
pub open spec fn weekday_label(y: Option<u32>, m: u32, d: Option<u32>) -> Seq<char> {
    match (y, d) {
        (Some(y), Some(d)) => if is_calendar_date(y as int, m as int, d as int) {
            weekday_abbr(day_number(y as int, m as int, d as int))
        } else {
            "???"@
        },
        _ => "???"@,
    }
}

fn days_in_month_exec(y: u32, m: u32) -> (r: u64)
    ensures
        r == days_in_month(y as int, m as int),
{
    if m == 2 {
        if y % 4 == 0 && (y % 100 != 0 || y % 400 == 0) {
            29
        } else {
            28
        }
    } else if m == 4 || m == 6 || m == 9 || m == 11 {
        30
    } else {
        31
    }
}

fn is_calendar_date_exec(y: u32, m: u32, d: u32) -> (b: bool)
    ensures
        b == is_calendar_date(y as int, m as int, d as int),
{
    1 <= y && 1 <= m && m <= 12 && 1 <= d && (d as u64) <= days_in_month_exec(y, m)
}

fn weekday_abbr_exec(y: u32, m: u32, d: u32) -> (r: &'static str)
    requires
        is_calendar_date(y as int, m as int, d as int),
    ensures
        r@ == weekday_abbr(day_number(y as int, m as int, d as int)),
{
    let y1: u64 = (y - 1) as u64;
    assert(y1 / 100 <= y1 / 4) by (nonlinear_arith);
    assert(y1 / 4 <= y1) by (nonlinear_arith);
    let mut n: u64 = 365 * y1 + y1 / 4 - y1 / 100 + y1 / 400;
    let mut i: u32 = 1;
    while i < m
        invariant
            1 <= i <= m <= 12,
            y1 == y - 1,
            n == 365 * (y - 1) + (y - 1) / 4 - (y - 1) / 100 + (y - 1) / 400 + days_before_month(
                y as int,
                i as int,
            ),
            days_before_month(y as int, i as int) <= 31 * (i - 1),
            n <= 365 * y1 + y1 / 4 + y1 / 400 + 31 * (i - 1),
        decreases m - i,
    {
        n = n + days_in_month_exec(y, i);
        i = i + 1;
    }
    n = n + (d - 1) as u64;
    assert(n == day_number(y as int, m as int, d as int));
    let k = n % 7;
    if k == 0 {
        "Mon"
    } else if k == 1 {
        "Tue"
    } else if k == 2 {
        "Wed"
    } else if k == 3 {
        "Thu"
    } else if k == 4 {
        "Fri"
    } else if k == 5 {
        "Sat"
    } else {
        "Sun"
    }
}

/// The label `"Wkd D Mon HH:MM"` of an ISO-8601 date-time, weekday first:
/// text shorter than 16 bytes is returned as it is; otherwise bytes 0..10
/// are the date and bytes 11..16 the time; the date is split at `-`, and
/// with fewer than three pieces the text is returned as it is; the pieces
/// are year, month and day read as numbers; the weekday is that of the
/// calendar day (`"???"` when they name none), the day is the third piece
/// without leading zeros and the month its abbreviation (`"???"` when the
/// second piece is not a month).
pub open spec fn fmt_day_dt_spec(iso: Seq<char>) -> Seq<char> {
    if utf8_len(iso) < 16 {
        iso
    } else {
        let date = iso.subrange(0, char_index(iso, 10));
        let time = iso.subrange(char_index(iso, 11), char_index(iso, 16));
        let parts = split_on(date, '-');
        if parts.len() < 3 {
            iso
        } else {
            let month = match parse_u32_spec(parts[1]) {
                Some(m) => m,
                None => 0,
            };
            let name = match month_abbr(month) {
                Some(n) => n,
                None => "???"@,
            };
            weekday_label(parse_u32_spec(parts[0]), month, parse_u32_spec(parts[2])) + seq![' ']
                + trim_start_char(parts[2], '0') + seq![' '] + name + seq![' '] + time
        }
    }
}

/// Label of an ISO-8601 date-time with its weekday, e.g.
/// `"2024-01-15T14:30:00Z"` gives `"Mon 15 Jan 14:30"`.
pub fn fmt_day_dt(iso: &str) -> (r: String)
    requires
        fmt_dt_sliceable(iso@),
    ensures
        r@ == fmt_day_dt_spec(iso@),
{
    let v = chars_of(iso);
    if byte_len_below(&v, 16) {
        return iso.to_owned();
    }
    let (j10, _) = locate_byte(&v, 10);
    let (j11, _) = locate_byte(&v, 11);
    let (j16, _) = locate_byte(&v, 16);
    proof {
        if j11 > j16 {
            lemma_utf8_len_take_mono(v@, j16 as int, j11 as int);
        }
    }
    let mut date: Vec<char> = Vec::new();
    push_prefix(&mut date, &v, j10);
    let parts = split_chars(&date, '-');
    if parts.len() < 3 {
        return iso.to_owned();
    }
    let month = match parse_u32(&parts[1]) {
        Some(m) => m,
        None => 0,
    };
    let name = match month_abbr_exec(month) {
        Some(n) => n,
        None => "???",
    };
    let year = parse_u32(&parts[0]);
    let day = parse_u32(&parts[2]);
    let wd = match (year, day) {
        (Some(y), Some(d)) => if is_calendar_date_exec(y, month, d) {
            weekday_abbr_exec(y, month, d)
        } else {
            "???"
        },
        _ => "???",
    };
    let mut s = wd.to_owned();
    push_char(&mut s, ' ');
    let k = skip_leading(&parts[2], '0');
    push_chars(&mut s, &parts[2], k, parts[2].len());
    push_char(&mut s, ' ');
    s.append(name);
    push_char(&mut s, ' ');
    push_chars(&mut s, &v, j11, j16);
    s
}

// ── Schedules ────────────────────────────────────────────────────────────────

#[derive(Debug, Clone, PartialEq)]
pub struct ScheduleRow {
    pub id: String,
    pub route_id: String,
    pub route_code: String,
    pub route_name: String,
    pub origin_city: String,
    pub destination_city: String,
    pub train_number: String,
    /// ISO-8601.
    pub departure_time: String,
    pub arrival_time: String,
    pub status: String,
    pub delay_minutes: i32,
    pub platform: Option<String>,
    pub updated_at: String,
}

/// Badge classes of a schedule status.
pub open spec fn schedule_status_color(status: Seq<char>) -> Seq<char> {
    if status == "delayed"@ {
        "bg-amber-100 text-amber-800"@
    } else if status == "cancelled"@ {
        "bg-red-100 text-red-800"@
    } else if status == "completed"@ {
        "bg-green-100 text-green-800"@
    } else {
        "bg-blue-100 text-blue-800"@
    }
}

impl ScheduleRow {
    /// Short display label `"<code> → <name>"`, e.g. `"EW-001 → EastWest
    /// Express"`.
    pub fn route_label(&self) -> (r: String)
        ensures
            r@ == self.route_code@ + " → "@ + self.route_name@,
    {
        let mut s = self.route_code.clone();
        s.append(" → ");
        s.append(self.route_name.as_str());
        s
    }

    pub fn status_color(&self) -> (r: &'static str)
        ensures
            r@ == schedule_status_color(self.status@),
    {
        let st = self.status.as_str();
        if str_eq(st, "delayed") {
            "bg-amber-100 text-amber-800"
        } else if str_eq(st, "cancelled") {
            "bg-red-100 text-red-800"
        } else if str_eq(st, "completed") {
            "bg-green-100 text-green-800"
        } else {
            "bg-blue-100 text-blue-800"
        }
    }

    /// The departure time with its weekday, as `"Mon 15 Jan 14:30"`.
    pub fn fmt_departure(&self) -> (r: String)
        requires
            fmt_dt_sliceable(self.departure_time@),
        ensures
            r@ == fmt_day_dt_spec(self.departure_time@),
    {
        fmt_day_dt(self.departure_time.as_str())
    }

    /// The arrival time as `"Jan 15 14:30"` (the short label of `fmt_dt`).
    pub fn fmt_arrival(&self) -> (r: String)
        requires
            fmt_dt_sliceable(self.arrival_time@),
        ensures
            r@ == fmt_dt_spec(self.arrival_time@),
    {
        fmt_dt(self.arrival_time.as_str())
    }
}

#[derive(Debug, Clone, PartialEq)]
pub struct InventoryItem {
    pub seat_class_id: String,
    pub seat_class_code: String,
    pub seat_class_name: String,
    pub base_fare: String,
    pub total_seats: i32,
    pub available_seats: i32,
    pub snapshot_at: String,
}

#[derive(Debug, Clone, PartialEq)]
pub struct ScheduleDetail {
    pub schedule: ScheduleRow,
    pub inventory: Vec<InventoryItem>,
}

// ── Passengers ───────────────────────────────────────────────────────────────

#[derive(Debug, Clone, PartialEq)]
pub struct PassengerItem {
    pub id: String,
    pub full_name: String,
    pub phone_last4: Option<String>,
    pub created_at: String,
    pub pii_purge_requested_at: Option<String>,
    pub pii_purged_at: Option<String>,
}

/// A phone shown by its last four digits, `"•••• 1234"`, or `"—"`.
pub open spec fn masked_phone_spec(last4: Option<String>) -> Seq<char> {
    match last4 {
        Some(l4) => "•••• "@ + l4@,
        None => "—"@,
    }
}

fn masked_phone_of(last4: &Option<String>) -> (r: String)
    ensures
        r@ == masked_phone_spec(*last4),
{
    match last4 {
        Some(l4) => {
            let mut s = "•••• ".to_owned();
            s.append(l4.as_str());
            s
        },
        None => "—".to_owned(),
    }
}

impl PassengerItem {
    pub fn masked_phone(&self) -> (r: String)
        ensures
            r@ == masked_phone_spec(self.phone_last4),
    {
        masked_phone_of(&self.phone_last4)
    }

    /// Whether the passenger's personal data has been purged.
    pub fn is_purged(&self) -> (r: bool)
        ensures
            r == self.pii_purged_at is Some,
    {
        self.pii_purged_at.is_some()
    }
}

// ── Orders ───────────────────────────────────────────────────────────────────

#[derive(Debug, Clone, PartialEq)]
pub struct OrderItem {
    pub id: String,
    pub order_number: String,
    pub passenger_id: String,
    pub schedule_id: String,
    pub seat_class_id: String,
    pub seat_number: Option<String>,
    pub status: String,
    pub fare_amount: String,
    pub fee_override_amount: Option<String>,
    pub fee_override_reason: Option<String>,
    pub hold_expires_at: Option<String>,
    pub cancellation_reason: Option<String>,
    pub refund_amount: Option<String>,
    pub disruption_flag: bool,
    pub created_at: String,
}

/// Badge classes of an order status.
pub open spec fn order_status_color(status: Seq<char>) -> Seq<char> {
    if status == "confirmed"@ {
        "bg-green-100 text-green-800"@
    } else if status == "held"@ {
        "bg-yellow-100 text-yellow-800"@
    } else if status == "cancelled"@ {
        "bg-red-100 text-red-800"@
    } else if status == "refunded"@ {
        "bg-purple-100 text-purple-800"@
    } else if status == "completed"@ {
        "bg-gray-100 text-gray-700"@
    } else {
        "bg-blue-100 text-blue-800"@
    }
}

fn order_status_color_of(status: &str) -> (r: &'static str)
    ensures
        r@ == order_status_color(status@),
{
    if str_eq(status, "confirmed") {
        "bg-green-100 text-green-800"
    } else if str_eq(status, "held") {
        "bg-yellow-100 text-yellow-800"
    } else if str_eq(status, "cancelled") {
        "bg-red-100 text-red-800"
    } else if str_eq(status, "refunded") {
        "bg-purple-100 text-purple-800"
    } else if str_eq(status, "completed") {
        "bg-gray-100 text-gray-700"
    } else {
        "bg-blue-100 text-blue-800"
    }
}

impl OrderItem {
    pub fn status_color(&self) -> (r: &'static str)
        ensures
            r@ == order_status_color(self.status@),
    {
        order_status_color_of(self.status.as_str())
    }
}

#[derive(Debug, Clone, PartialEq)]
pub struct OrderDetail {
    pub id: String,
    pub order_number: String,
    pub status: String,
    pub fare_amount: String,
    pub disruption_flag: bool,
    pub seat_number: Option<String>,
    pub hold_expires_at: Option<String>,
    pub created_at: String,
    pub passenger_id: String,
    pub passenger_name: String,
    pub phone_last4: Option<String>,
    pub schedule_id: String,
    pub train_number: String,
    pub departure_time: String,
    pub arrival_time: String,
    pub route_code: String,
    pub route_name: String,
    pub seat_class_code: String,
    pub seat_class_name: String,
}

impl OrderDetail {
    pub fn status_color(&self) -> (r: &'static str)
        ensures
            r@ == order_status_color(self.status@),
    {
        order_status_color_of(self.status.as_str())
    }

    pub fn masked_phone(&self) -> (r: String)
        ensures
            r@ == masked_phone_spec(self.phone_last4),
    {
        masked_phone_of(&self.phone_last4)
    }

    pub fn fmt_departure(&self) -> (r: String)
        requires
            fmt_dt_sliceable(self.departure_time@),
        ensures
            r@ == fmt_dt_spec(self.departure_time@),
    {
        fmt_dt(self.departure_time.as_str())
    }
}

#[derive(Debug, Clone, PartialEq)]
pub struct OrderEventItem {
    pub id: i64,
    pub order_id: String,
    pub event_type: String,
    pub performed_by: Option<String>,
    pub reason: Option<String>,
    pub created_at: String,
}

#[derive(Debug, Clone, PartialEq)]
pub struct OrderDetailResponse {
    pub order: OrderDetail,
    pub events: Vec<OrderEventItem>,
}

// ── Request bodies ───────────────────────────────────────────────────────────

#[derive(Debug, Clone)]
pub struct UpdateStatusBody {
    pub status: String,
    pub delay_minutes: Option<i32>,
    pub platform: Option<String>,
}

#[derive(Debug, Clone)]
pub struct CorrectInventoryBody {
    pub seat_class_id: String,
    pub total_seats: i32,
    pub available_seats: i32,
}

#[derive(Debug, Clone)]
pub struct CreatePassengerBody {
    pub full_name: String,
    pub phone: Option<String>,
    pub email: Option<String>,
}

#[derive(Debug, Clone)]
pub struct CreateOrderBody {
    pub passenger_id: String,
    pub schedule_id: String,
    pub seat_class_id: String,
    pub seat_number: Option<String>,
    pub fare_amount: String,
}

#[derive(Debug, Clone)]
pub struct CancelBody {
    pub reason: String,
    pub disruption_flag: bool,
    pub refund_amount: Option<String>,
}

#[derive(Debug, Clone)]
pub struct RefundBody {
    pub amount: String,
}

#[derive(Debug, Clone)]
pub struct FeeOverrideBody {
    pub override_amount: String,
    pub reason: String,
}

#[derive(Debug, Clone)]
pub struct CreatedOrder {
    pub id: String,
    pub order_number: String,
}

// ── Request paths ────────────────────────────────────────────────────────────

/// `prefix + id + suffix`.
pub fn join3(prefix: &str, id: &str, suffix: &str) -> (r: String)
    ensures
        r@ == prefix@ + id@ + suffix@,
{
    let mut s = prefix.to_owned();
    s.append(id);
    s.append(suffix);
    s
}

pub const ROUTES_PATH: &'static str = "/api/v1/ops/routes";

pub const SEAT_CLASSES_PATH: &'static str = "/api/v1/ops/seat-classes";

pub const PASSENGERS_PATH: &'static str = "/api/v1/ops/passengers";

pub const ORDERS_PATH: &'static str = "/api/v1/ops/orders";

/// `&name=<value>` as it is, when the value is present and not empty.
pub open spec fn raw_param(name: Seq<char>, v: Option<Seq<char>>) -> Seq<char> {
    match v {
        Some(x) => if x.len() > 0 {
            seq!['&'] + name + seq!['='] + x
        } else {
            Seq::empty()
        },
        None => Seq::empty(),
    }
}

pub fn push_raw_param(s: &mut String, name: &str, v: Option<&str>)
    ensures
        final(s)@ == old(s)@ + raw_param(name@, opt_view(v)),
{
    match v {
        Some(x) => {
            if !x.is_empty() {
                push_char(s, '&');
                s.append(name);
                push_char(s, '=');
                s.append(x);
            }
        },
        None => {},
    }
    assert(s@ =~= old(s)@ + raw_param(name@, opt_view(v)));
}

/// URL of the schedule listing: page and size, then the route and status
/// filters as they are and the departure lower bound URI-encoded, each only
/// when present and not empty.
pub open spec fn list_schedules_url_spec(
    route_id: Option<Seq<char>>,
    status: Option<Seq<char>>,
    departure_after: Option<Seq<char>>,
    page: i64,
    per_page: i64,
) -> Seq<char> {
    "/api/v1/ops/schedules?page="@ + int_digits(page as int) + "&per_page="@ + int_digits(
        per_page as int,
    ) + raw_param("route_id"@, route_id) + raw_param("status"@, status) + nonempty_param(
        "departure_after"@,
        departure_after,
    )
}

pub fn list_schedules_url(
    route_id: Option<&str>,
    status: Option<&str>,
    departure_after: Option<&str>,
    page: i64,
    per_page: i64,
) -> (r: String)
    ensures
        r@ == list_schedules_url_spec(
            opt_view(route_id),
            opt_view(status),
            opt_view(departure_after),
            page,
            per_page,
        ),
{
    let mut s = "/api/v1/ops/schedules?page=".to_owned();
    push_i64(&mut s, page);
    s.append("&per_page=");
    push_i64(&mut s, per_page);
    push_raw_param(&mut s, "route_id", route_id);
    push_raw_param(&mut s, "status", status);
    push_nonempty_param(&mut s, "departure_after", departure_after);
    assert(s@ =~= list_schedules_url_spec(
        opt_view(route_id),
        opt_view(status),
        opt_view(departure_after),
        page,
        per_page,
    ));
    s
}

/// Path of one schedule with its inventory.
pub fn schedule_path(id: &str) -> (r: String)
    ensures
        r@ == "/api/v1/ops/schedules/"@ + id@,
{
    let mut s = "/api/v1/ops/schedules/".to_owned();
    s.append(id);
    s
}

/// Path of a schedule's status update (`PATCH`).
pub fn schedule_status_path(id: &str) -> (r: String)
    ensures
        r@ == "/api/v1/ops/schedules/"@ + id@ + "/status"@,
{
    join3("/api/v1/ops/schedules/", id, "/status")
}

/// Path of a schedule's inventory correction (`POST`).
pub fn inventory_path(schedule_id: &str) -> (r: String)
    ensures
        r@ == "/api/v1/ops/schedules/"@ + schedule_id@ + "/inventory"@,
{
    join3("/api/v1/ops/schedules/", schedule_id, "/inventory")
}

/// URL of the passenger search: the query URI-encoded, the page, and 20 per
/// page.
pub fn search_passengers_url(q: &str, page: i64) -> (r: String)
    ensures
        r@ == "/api/v1/ops/passengers?q="@ + uri_component(q@) + "&page="@ + int_digits(
            page as int,
        ) + "&per_page=20"@,
{
    let mut s = "/api/v1/ops/passengers?q=".to_owned();
    push_uri_component(&mut s, q);
    s.append("&page=");
    push_i64(&mut s, page);
    s.append("&per_page=20");
    s
}

/// Path of a passenger's PII purge request (`POST`).
pub fn pii_purge_path(passenger_id: &str) -> (r: String)
    ensures
        r@ == "/api/v1/ops/passengers/"@ + passenger_id@ + "/pii-purge"@,
{
    join3("/api/v1/ops/passengers/", passenger_id, "/pii-purge")
}

/// URL of the order listing: page, 20 per page, then the passenger,
/// schedule and status filters as they are, then the passenger-name and
/// phone (last four digits) searches URI-encoded, each only when present
/// and not empty.
pub open spec fn list_orders_url_spec(
    passenger_id: Option<Seq<char>>,
    schedule_id: Option<Seq<char>>,
    status: Option<Seq<char>>,
    passenger_name: Option<Seq<char>>,
    phone_last4: Option<Seq<char>>,
    page: i64,
) -> Seq<char> {
    "/api/v1/ops/orders?page="@ + int_digits(page as int) + "&per_page=20"@ + raw_param(
        "passenger_id"@,
        passenger_id,
    ) + raw_param("schedule_id"@, schedule_id) + raw_param("status"@, status) + nonempty_param(
        "passenger_name"@,
        passenger_name,
    ) + nonempty_param("phone_last4"@, phone_last4)
}

pub fn list_orders_url(
    passenger_id: Option<&str>,
    schedule_id: Option<&str>,
    status: Option<&str>,
    passenger_name: Option<&str>,
    phone_last4: Option<&str>,
    page: i64,
) -> (r: String)
    ensures
        r@ == list_orders_url_spec(
            opt_view(passenger_id),
            opt_view(schedule_id),
            opt_view(status),
            opt_view(passenger_name),
            opt_view(phone_last4),
            page,
        ),
{
    let mut s = "/api/v1/ops/orders?page=".to_owned();
    push_i64(&mut s, page);
    s.append("&per_page=20");
    push_raw_param(&mut s, "passenger_id", passenger_id);
    push_raw_param(&mut s, "schedule_id", schedule_id);
    push_raw_param(&mut s, "status", status);
    push_nonempty_param(&mut s, "passenger_name", passenger_name);
    push_nonempty_param(&mut s, "phone_last4", phone_last4);
    s
}

/// Path of the lookup of an order by its number (URI-encoded).
pub fn order_by_number_path(num: &str) -> (r: String)
    ensures
        r@ == "/api/v1/ops/orders/by-number/"@ + uri_component(num@),
{
    let mut s = "/api/v1/ops/orders/by-number/".to_owned();
    push_uri_component(&mut s, num);
    s
}

/// Path of one order with its events.
pub fn order_path(id: &str) -> (r: String)
    ensures
        r@ == "/api/v1/ops/orders/"@ + id@,
{
    let mut s = "/api/v1/ops/orders/".to_owned();
    s.append(id);
    s
}

/// The order actions that have an endpoint of their own (all `POST`).
#[derive(Debug, Clone, Copy, PartialEq, Eq, Structural)]
pub enum OrderAction {
    Confirm,
    Cancel,
    Refund,
    FeeOverride,
    Disruption,
}

pub open spec fn order_action_segment(a: OrderAction) -> Seq<char> {
    match a {
        OrderAction::Confirm => "/confirm"@,
        OrderAction::Cancel => "/cancel"@,
        OrderAction::Refund => "/refund"@,
        OrderAction::FeeOverride => "/fee-override"@,
        OrderAction::Disruption => "/disruption"@,
    }
}

/// Path of an action on an order.
pub fn order_action_path(id: &str, action: OrderAction) -> (r: String)
    ensures
        r@ == "/api/v1/ops/orders/"@ + id@ + order_action_segment(action),
{
    let seg = match action {
        OrderAction::Confirm => "/confirm",
        OrderAction::Cancel => "/cancel",
        OrderAction::Refund => "/refund",
        OrderAction::FeeOverride => "/fee-override",
        OrderAction::Disruption => "/disruption",
    };
    join3("/api/v1/ops/orders/", id, seg)
}

} // verus!
