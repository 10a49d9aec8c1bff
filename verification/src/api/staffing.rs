//! Staffing console: shifts, assignments, contractors, match candidates and
//! subscriptions — response shapes, request bodies and paths.

use vstd::prelude::*;
use crate::api::ops::join3;
use crate::text::{int_digits, push_char, push_i64};

verus! {

pub use crate::api::ops::Page;

#[derive(Debug, Clone, PartialEq)]
pub struct ShiftRow {
    pub id: String,
    pub role: String,
    pub region: Option<String>,
    pub required_tags: Vec<String>,
    pub shift_start: String,
    pub shift_end: String,
    pub status: String,
    pub is_critical: bool,
    pub created_at: String,
}

#[derive(Debug, Clone, PartialEq)]
pub struct AssignmentRow {
    pub id: String,
    pub shift_id: String,
    pub status: String,
    /// Decimal score as the backend renders it.
    pub match_score: Option<String>,
    /// Rationale strings.
    pub match_reasons: Option<Vec<String>>,
    pub assigned_at: String,
    pub contractor_id: String,
    pub contractor_name: String,
    pub region: Option<String>,
    pub quality_rating: String,
}

#[derive(Debug, Clone, PartialEq)]
pub struct ShiftDetail {
    pub shift: ShiftRow,
    pub assignments: Vec<AssignmentRow>,
}

#[derive(Debug, Clone, PartialEq)]
pub struct ContractorRow {
    pub id: String,
    pub full_name: String,
    pub region: Option<String>,
    pub quality_rating: String,
    pub is_active: bool,
    pub created_at: String,
}

#[derive(Debug, Clone, PartialEq)]
pub struct ContractorDetail {
    pub contractor: ContractorRow,
    pub tags: Vec<String>,
}

#[derive(Debug, Clone, PartialEq)]
pub struct MatchCandidateItem {
    pub contractor_id: String,
    pub full_name: String,
    pub score: String,
    pub reasons: [String; 3],
}

#[derive(Debug, Clone, PartialEq)]
pub struct CandidatesResponse {
    pub candidates: Vec<MatchCandidateItem>,
}

#[derive(Debug, Clone, PartialEq)]
pub struct SubscriptionItem {
    pub id: String,
    pub subscriber_type: String,
    pub subscriber_id: String,
    pub target_type: String,
    pub target_id: String,
    pub created_at: String,
}

#[derive(Debug)]
pub struct ProposeBody {
    pub contractor_id: String,
}

#[derive(Debug)]
pub struct RespondBody {
    pub status: String,
}

#[derive(Debug)]
pub struct SubscribeBody {
    pub subscriber_type: String,
    pub target_type: String,
    pub target_id: String,
}

impl SubscribeBody {
    /// The body of a subscribe or unsubscribe request.
    pub fn new(subscriber_type: &str, target_type: &str, target_id: &str) -> (r: SubscribeBody)
        ensures
            r.subscriber_type@ == subscriber_type@,
            r.target_type@ == target_type@,
            r.target_id@ == target_id@,
    {
        SubscribeBody {
            subscriber_type: subscriber_type.to_owned(),
            target_type: target_type.to_owned(),
            target_id: target_id.to_owned(),
        }
    }
}

/// `&name=<value>` as it is, when the value is not empty.
pub open spec fn filter_param(name: Seq<char>, v: Seq<char>) -> Seq<char> {
    if v.len() > 0 {
        seq!['&'] + name + seq!['='] + v
    } else {
        Seq::empty()
    }
}

fn push_filter_param(s: &mut String, name: &str, v: &str)
    ensures
        final(s)@ == old(s)@ + filter_param(name@, v@),
{
    if !v.is_empty() {
        push_char(s, '&');
        s.append(name);
        push_char(s, '=');
        s.append(v);
    }
    assert(s@ =~= old(s)@ + filter_param(name@, v@));
}

/// `"?page=<page>&per_page=20"`.
pub open spec fn page_query(page: i64) -> Seq<char> {
    "?page="@ + int_digits(page as int) + "&per_page=20"@
}

/// Path of the shift listing: page, 20 per page, then the status, region
/// and role filters as they are when not empty.
pub open spec fn list_shifts_path_spec(status: Seq<char>, region: Seq<char>, role: Seq<char>, page: i64) -> Seq<char> {
    "/api/v1/staffing/shifts"@ + page_query(page) + filter_param("status"@, status)
        + filter_param("region"@, region) + filter_param("role"@, role)
}

pub fn list_shifts_path(status: &str, region: &str, role: &str, page: i64) -> (r: String)
    ensures
        r@ == list_shifts_path_spec(status@, region@, role@, page),
{
    let mut s = "/api/v1/staffing/shifts".to_owned();
    s.append("?page=");
    push_i64(&mut s, page);
    s.append("&per_page=20");
    push_filter_param(&mut s, "status", status);
    push_filter_param(&mut s, "region", region);
    push_filter_param(&mut s, "role", role);
    assert(s@ =~= list_shifts_path_spec(status@, region@, role@, page));
    s
}

/// Path for creating a shift (`POST`).
pub const SHIFTS_PATH: &'static str = "/api/v1/staffing/shifts";

/// Path of one shift with its assignments.
pub fn shift_path(id: &str) -> (r: String)
    ensures
        r@ == "/api/v1/staffing/shifts/"@ + id@,
{
    let mut s = "/api/v1/staffing/shifts/".to_owned();
    s.append(id);
    s
}

/// Path of a shift's status update (`PATCH`).
pub fn shift_status_path(id: &str) -> (r: String)
    ensures
        r@ == "/api/v1/staffing/shifts/"@ + id@ + "/status"@,
{
    join3("/api/v1/staffing/shifts/", id, "/status")
}

/// Path of a shift's ranked match candidates.
pub fn candidates_path(shift_id: &str) -> (r: String)
    ensures
        r@ == "/api/v1/staffing/shifts/"@ + shift_id@ + "/candidates"@,
{
    join3("/api/v1/staffing/shifts/", shift_id, "/candidates")
}

/// Path of an assignment proposal for a shift (`POST`).
pub fn propose_path(shift_id: &str) -> (r: String)
    ensures
        r@ == "/api/v1/staffing/shifts/"@ + shift_id@ + "/propose"@,
{
    join3("/api/v1/staffing/shifts/", shift_id, "/propose")
}

/// Path of the answer to an assignment (`PATCH`).
pub fn respond_path(id: &str) -> (r: String)
    ensures
        r@ == "/api/v1/staffing/assignments/"@ + id@ + "/respond"@,
{
    join3("/api/v1/staffing/assignments/", id, "/respond")
}

/// `"true"` or `"false"`.
pub open spec fn bool_str(b: bool) -> Seq<char> {
    if b {
        "true"@
    } else {
        "false"@
    }
}

/// Path of the contractor listing: page, 20 per page, the region when not
/// empty and the active filter when present.
pub open spec fn list_contractors_path_spec(region: Seq<char>, is_active: Option<bool>, page: i64) -> Seq<char> {
    "/api/v1/staffing/contractors"@ + page_query(page) + filter_param("region"@, region)
        + match is_active {
        Some(a) => "&is_active="@ + bool_str(a),
        None => Seq::empty(),
    }
}

pub fn list_contractors_path(region: &str, is_active: Option<bool>, page: i64) -> (r: String)
    ensures
        r@ == list_contractors_path_spec(region@, is_active, page),
{
    let mut s = "/api/v1/staffing/contractors".to_owned();
    s.append("?page=");
    push_i64(&mut s, page);
    s.append("&per_page=20");
    push_filter_param(&mut s, "region", region);
    match is_active {
        Some(a) => {
            s.append("&is_active=");
            s.append(if a {
                "true"
            } else {
                "false"
            });
        },
        None => {},
    }
    assert(s@ =~= list_contractors_path_spec(region@, is_active, page));
    s
}

/// Path of one contractor with tags.
pub fn contractor_path(id: &str) -> (r: String)
    ensures
        r@ == "/api/v1/staffing/contractors/"@ + id@,
{
    let mut s = "/api/v1/staffing/contractors/".to_owned();
    s.append(id);
    s
}

/// Path of a contractor's active flag (`PATCH`).
pub fn contractor_active_path(id: &str) -> (r: String)
    ensures
        r@ == "/api/v1/staffing/contractors/"@ + id@ + "/active"@,
{
    join3("/api/v1/staffing/contractors/", id, "/active")
}

/// Path of the subscriptions (`GET` lists, `POST` subscribes, `DELETE`
/// unsubscribes).
pub const SUBSCRIPTIONS_PATH: &'static str = "/api/v1/staffing/subscriptions";

} // verus!
