//! The schedules and inventory page: who may act, the listing's filters, the
//! detail panel's state, and the two action forms' checks.

use vstd::prelude::*;
use crate::api::ops::{
    list_schedules_url,
    list_schedules_url_spec,
    CorrectInventoryBody,
    UpdateStatusBody,
};
use crate::shared::UserRole;
use crate::text::{
    chars_of, int_digits, non_blank, non_blank_exec, parse_i32, parse_i32_spec, push_char, push_i64,
};

verus! {

/// Admins and operations agents may update schedules and inventory.
pub open spec fn can_manage_schedules_spec(role: UserRole) -> bool {
    role == UserRole::Admin || role == UserRole::OpsAgent
}

pub fn can_manage_schedules(role: UserRole) -> (b: bool)
    ensures
        b == can_manage_schedules_spec(role),
{
    match role {
        UserRole::Admin | UserRole::OpsAgent => true,
        _ => false,
    }
}

// ── Listing ──────────────────────────────────────────────────────────────────

/// The listing's filters and page.
#[derive(Debug, Clone, PartialEq)]
pub struct ScheduleFilters {
    /// Route id, empty for all routes.
    pub route: String,
    /// Status, empty for all statuses.
    pub status: String,
    pub page: i64,
}

/// Schedules per page.
pub const SCHEDULES_PER_PAGE: i64 = 20;

impl ScheduleFilters {
    pub fn new() -> (r: ScheduleFilters)
        ensures
            r.route@.len() == 0 && r.status@.len() == 0 && r.page == 1,
    {
        ScheduleFilters { route: String::new(), status: String::new(), page: 1 }
    }

    /// Choosing a route goes back to the first page.
    pub fn set_route(&mut self, route: String)
        ensures
            *final(self) == (ScheduleFilters { route, page: 1, ..*old(self) }),
    {
        self.route = route;
        self.page = 1;
    }

    /// Choosing a status goes back to the first page.
    pub fn set_status(&mut self, status: String)
        ensures
            *final(self) == (ScheduleFilters { status, page: 1, ..*old(self) }),
    {
        self.status = status;
        self.page = 1;
    }

    /// The listing's URL: the route and status as chosen (left out when
    /// empty), no departure bound, 20 per page.
    pub fn list_url(&self) -> (r: String)
        ensures
            r@ == list_schedules_url_spec(
                Some(self.route@),
                Some(self.status@),
                None,
                self.page,
                SCHEDULES_PER_PAGE,
            ),
    {
        list_schedules_url(
            Some(self.route.as_str()),
            Some(self.status.as_str()),
            None,
            self.page,
            SCHEDULES_PER_PAGE,
        )
    }
}

// ── Detail panel ─────────────────────────────────────────────────────────────

/// Which action form the detail panel shows.
#[derive(Debug, Clone, Copy, PartialEq, Eq, Structural)]
pub enum PanelForm {
    Closed,
    UpdateStatus,
    FixInventory,
}

/// The detail panel: the selected row, the open form, its error and the
/// success banner.
#[derive(Debug, Clone, PartialEq)]
pub struct DetailPanel {
    pub selected: Option<String>,
    pub form: PanelForm,
    pub error: Option<String>,
    pub ok: bool,
}

impl DetailPanel {
    pub fn new() -> (r: DetailPanel)
        ensures
            r.selected is None && r.form == PanelForm::Closed && r.error is None && !r.ok,
    {
        DetailPanel { selected: None, form: PanelForm::Closed, error: None, ok: false }
    }

    /// A row is clicked: it is selected, with no form open and no banner.
    pub fn select(&mut self, id: String)
        ensures
            *final(self) == (DetailPanel {
                selected: Some(id),
                form: PanelForm::Closed,
                ok: false,
                error: old(self).error,
            }),
    {
        self.selected = Some(id);
        self.form = PanelForm::Closed;
        self.ok = false;
    }

    /// "Close panel".
    pub fn close(&mut self)
        ensures
            *final(self) == (DetailPanel { selected: None, form: PanelForm::Closed, ..*old(self) }),
    {
        self.selected = None;
        self.form = PanelForm::Closed;
    }

    /// A form's button opens it and hides the banner.
    pub fn open(&mut self, form: PanelForm)
        ensures
            *final(self) == (DetailPanel { form, ok: false, ..*old(self) }),
    {
        self.form = form;
        self.ok = false;
    }

    /// A form's "Cancel".
    pub fn cancel(&mut self)
        ensures
            *final(self) == (DetailPanel { form: PanelForm::Closed, error: None, ..*old(self) }),
    {
        self.form = PanelForm::Closed;
        self.error = None;
    }

    /// The request succeeded: the form closes and the banner shows.
    pub fn succeeded(&mut self)
        ensures
            *final(self) == (DetailPanel {
                form: PanelForm::Closed,
                error: None,
                ok: true,
                selected: old(self).selected,
            }),
    {
        self.form = PanelForm::Closed;
        self.error = None;
        self.ok = true;
    }

    /// The request or the form's check failed: the form stays open with the
    /// message.
    pub fn failed(&mut self, message: String)
        ensures
            *final(self) == (DetailPanel { error: Some(message), ..*old(self) }),
    {
        self.error = Some(message);
    }
}

// ── Forms ────────────────────────────────────────────────────────────────────

/// The delay field: a number (as `i32` parses it, untrimmed) that is
/// positive, else none.
pub open spec fn delay_spec(delay: Seq<char>) -> Option<i32> {
    match parse_i32_spec(delay) {
        Some(d) => if d > 0 {
            Some(d)
        } else {
            None
        },
        None => None,
    }
}

/// The status update's body from the form: the chosen status, the delay
/// when positive, and the platform trimmed when not blank.
pub fn status_update_body(status: &str, delay: &str, platform: &str) -> (r: UpdateStatusBody)
    ensures
        r.status@ == status@,
        r.delay_minutes == delay_spec(delay@),
        match r.platform {
            Some(p) => non_blank(platform@) == Some(p@),
            None => non_blank(platform@) is None,
        },
{
    let dv = chars_of(delay);
    let d = match parse_i32(&dv) {
        Some(x) => if x > 0 {
            Some(x)
        } else {
            None
        },
        None => None,
    };
    UpdateStatusBody { status: status.to_owned(), delay_minutes: d, platform: non_blank_exec(platform) }
}

pub const TOTAL_NOT_NUMBER: &'static str = "Total seats must be a number";

pub const AVAILABLE_NOT_NUMBER: &'static str = "Available seats must be a number";

/// The inventory correction from the form: both counts must parse as `i32`
/// (untrimmed), the total first.
pub fn inventory_body(seat_class_id: &str, total: &str, available: &str) -> (r: Result<
    CorrectInventoryBody,
    &'static str,
>)
    ensures
        parse_i32_spec(total@) is None ==> r == Err::<CorrectInventoryBody, &'static str>(
            TOTAL_NOT_NUMBER,
        ),
        parse_i32_spec(total@) is Some && parse_i32_spec(available@) is None ==> r == Err::<
            CorrectInventoryBody,
            &'static str,
        >(AVAILABLE_NOT_NUMBER),
        r matches Ok(b) ==> b.seat_class_id@ == seat_class_id@ && parse_i32_spec(total@) == Some(
            b.total_seats,
        ) && parse_i32_spec(available@) == Some(b.available_seats),
        parse_i32_spec(total@) is Some && parse_i32_spec(available@) is Some ==> r is Ok,
{
    let tv = chars_of(total);
    let t = match parse_i32(&tv) {
        Some(x) => x,
        None => {
            return Err(TOTAL_NOT_NUMBER);
        },
    };
    let av = chars_of(available);
    let a = match parse_i32(&av) {
        Some(x) => x,
        None => {
            return Err(AVAILABLE_NOT_NUMBER);
        },
    };
    Ok(CorrectInventoryBody { seat_class_id: seat_class_id.to_owned(), total_seats: t, available_seats: a })
}

// ── Labels ───────────────────────────────────────────────────────────────────

/// A schedule row's classes.
pub fn schedule_row_class(selected: bool) -> (r: &'static str)
    ensures
        selected ==> r@ == "bg-indigo-50 cursor-pointer border-l-2 border-l-indigo-500 transition-colors"@,
        !selected ==> r@ == "cursor-pointer hover:bg-slate-50/60 transition-colors"@,
{
    if selected {
        "bg-indigo-50 cursor-pointer border-l-2 border-l-indigo-500 transition-colors"
    } else {
        "cursor-pointer hover:bg-slate-50/60 transition-colors"
    }
}

/// The platform cell: the platform, or `"—"`.
pub fn platform_cell(platform: Option<&str>) -> (r: &str)
    ensures
        r@ == match platform {
            Some(p) => p@,
            None => "—"@,
        },
{
    match platform {
        Some(p) => p,
        None => "—",
    }
}

/// The delay line, shown only for a positive delay: `"Delayed <n> min"`.
pub fn delay_label(delay_minutes: i32) -> (r: Option<String>)
    ensures
        delay_minutes <= 0 ==> r is None,
        delay_minutes > 0 ==> (r matches Some(s) && s@ == "Delayed "@ + int_digits(
            delay_minutes as int,
        ) + " min"@),
{
    if delay_minutes > 0 {
        let mut s = "Delayed ".to_owned();
        push_i64(&mut s, delay_minutes as i64);
        s.append(" min");
        Some(s)
    } else {
        None
    }
}

/// An inventory row's count, `"<available>/<total>"`.
pub fn seats_label(available: i32, total: i32) -> (r: String)
    ensures
        r@ == int_digits(available as int) + seq!['/'] + int_digits(total as int),
{
    let mut s = String::new();
    push_i64(&mut s, available as i64);
    push_char(&mut s, '/');
    push_i64(&mut s, total as i64);
    s
}

/// The width of an inventory bar's free part, `"width: <100 - pct>%"`.
pub fn free_bar_style(occupancy_pct: u32) -> (r: String)
    requires
        occupancy_pct <= 100,
    ensures
        r@ == "width: "@ + int_digits(100 - occupancy_pct) + seq!['%'],
{
    let mut s = "width: ".to_owned();
    push_i64(&mut s, (100 - occupancy_pct) as i64);
    push_char(&mut s, '%');
    s
}

/// A seat class option, `"<code> (<name>)"`.
pub fn seat_class_option(code: &str, name: &str) -> (r: String)
    ensures
        r@ == code@ + " ("@ + name@ + seq![')'],
{
    let mut s = code.to_owned();
    s.append(" (");
    s.append(name);
    push_char(&mut s, ')');
    s
}

/// A route option, `"<code> — <name>"`.
pub fn route_option(code: &str, name: &str) -> (r: String)
    ensures
        r@ == code@ + " — "@ + name@,
{
    let mut s = code.to_owned();
    s.append(" — ");
    s.append(name);
    s
}

} // verus!
