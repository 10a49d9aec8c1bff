use railops::api::credentials::{
    audit_path, credential_path, esign_path, esignatures_path, list_credentials_path, review_path,
    sweep_message, sweep_message_of_body, total_pages, EsignBody, ReviewBody, UploadFields,
    CONTRACTOR_REQUIRED, DOCUMENT_TYPE_REQUIRED, ESIGN_REQUIRED,
};
use railops::api::kiosk::{
    archive_articles_url, archive_index_url, article_url, category_color, category_label,
    month_name, parse_date_display, search_content_url,
};
use railops::api::ops::{
    fmt_day_dt, fmt_dt, list_orders_url, list_schedules_url, order_action_path, order_by_number_path,
    search_passengers_url, OrderAction, PassengerItem, ScheduleRow,
};
use railops::api::rules::{rule_path, BusinessRule};
use railops::api::staffing::{list_contractors_path, list_shifts_path, respond_path};
use railops::api::{
    hmac_sign, http_error, sign_request, sign_request_at, signing_message, transport_error,
    HttpMethod,
};
use railops::uri::urlenc;

#[test]
fn signing_message_layout() {
    assert_eq!(signing_message("GET", "/api/v1/auth/me", 1700000000), "GET\n/api/v1/auth/me\n1700000000");
}

#[test]
fn hmac_signature_known_value() {
    let sig = hmac_sign("tok123", "GET\n/api/v1/auth/me\n1700000000");
    assert_eq!(sig, "719c1b47746e314de5fcc5c429c7475785847775f67a2d74ad6bb5f85c02a557");
    assert_eq!(hmac_sign("", "").len(), 64);
}

#[test]
fn signed_request_headers() {
    let r = sign_request_at("GET", "/api/v1/auth/me", "tok123", 1700000000).ok().unwrap();
    assert_eq!(r.method, HttpMethod::Get);
    assert_eq!(r.path, "/api/v1/auth/me");
    assert_eq!(r.ts, 1700000000);
    assert_eq!(r.headers.authorization, "Bearer tok123");
    assert_eq!(r.headers.timestamp, "1700000000");
    assert_eq!(r.headers.signature, "719c1b47746e314de5fcc5c429c7475785847775f67a2d74ad6bb5f85c02a557");
}

#[test]
fn signed_request_unknown_method() {
    let e = sign_request_at("FETCH", "/x", "t", 1).err().unwrap();
    assert_eq!(e.status, 0);
    assert_eq!(e.message, "Unknown method FETCH");
    let e2 = sign_request("get", "/x", "t").err().unwrap();
    assert_eq!(e2.message, "Unknown method get");
}

#[test]
fn signed_request_now_is_recent() {
    let r = sign_request("DELETE", "/api/v1/auth/logout", "abc").ok().unwrap();
    assert!(r.ts > 1_600_000_000);
    assert_eq!(r.headers.timestamp, r.ts.to_string());
    let msg = signing_message("DELETE", "/api/v1/auth/logout", r.ts);
    assert_eq!(r.headers.signature, hmac_sign("abc", &msg));
}

#[test]
fn http_methods_round_trip() {
    for m in ["GET", "POST", "PUT", "PATCH", "DELETE"] {
        assert_eq!(HttpMethod::parse(m).ok().unwrap().as_str(), m);
    }
}

#[test]
fn http_error_reads_structured_message() {
    let e = http_error(400, r#"{"error":{"message":"bad input","code":"x"}}"#);
    assert_eq!(e.status, 400);
    assert_eq!(e.message, "bad input");
}

#[test]
fn http_error_falls_back_to_body() {
    let e = http_error(502, "Bad Gateway");
    assert_eq!(e.message, "Bad Gateway");
    let f = http_error(500, r#"{"error":"flat"}"#);
    assert_eq!(f.message, r#"{"error":"flat"}"#);
    assert_eq!(f.display(), r#"HTTP 500: {"error":"flat"}"#);
}

#[test]
fn transport_error_has_status_zero() {
    let e = transport_error("offline");
    assert_eq!(e.status, 0);
    assert_eq!(e.display(), "HTTP 0: offline");
}

#[test]
fn uri_component_encoding() {
    assert_eq!(urlenc("café & tea/1"), "caf%C3%A9%20%26%20tea%2F1");
    assert_eq!(urlenc("A-Z_a.z!~*'()"), "A-Z_a.z!~*'()");
    assert_eq!(urlenc(""), "");
}

#[test]
fn kiosk_urls() {
    assert_eq!(
        search_content_url(Some("late train"), Some(""), Some("rail"), 2, 12),
        "/api/v1/kiosk/content?page=2&per_page=12&q=late%20train&tag=rail"
    );
    assert_eq!(article_url("a b"), "/api/v1/kiosk/content/a%20b");
    assert_eq!(archive_index_url(Some(2024), Some("fares")), "/api/v1/kiosk/archive?year=2024&category=fares&");
    assert_eq!(archive_index_url(None, None), "/api/v1/kiosk/archive?");
    assert_eq!(
        archive_articles_url(2024, 3, None, 1),
        "/api/v1/kiosk/archive?year=2024&month=3&page=1"
    );
}

#[test]
fn kiosk_labels() {
    assert_eq!(parse_date_display("2024-01-15"), Some("Jan 15, 2024".to_owned()));
    assert_eq!(parse_date_display("2024-06-05"), Some("Jun 5, 2024".to_owned()));
    assert_eq!(parse_date_display("2024-13-05"), None);
    assert_eq!(parse_date_display("nodate"), None);
    assert_eq!(month_name(12), "December");
    assert_eq!(category_label("delays"), "Delays");
    assert_eq!(category_label("xyz"), "General");
    assert_eq!(category_color("unknown").is_empty(), false);
}

#[test]
fn ops_fmt_dt_short_label() {
    assert_eq!(fmt_dt("2024-06-15T09:30:00Z"), "Jun 15 09:30");
    assert_eq!(fmt_dt("2024-06-05T21:05:00Z"), "Jun 5 21:05");
    assert_eq!(fmt_dt("short"), "short");
}

#[test]
fn ops_urls() {
    assert_eq!(
        list_schedules_url(Some("r1"), Some(""), Some("2026-06-01T00:00"), 1, 20),
        "/api/v1/ops/schedules?page=1&per_page=20&route_id=r1&departure_after=2026-06-01T00%3A00"
    );
    assert_eq!(search_passengers_url("Ann Lee", 2), "/api/v1/ops/passengers?q=Ann%20Lee&page=2&per_page=20");
    assert_eq!(list_orders_url(None, Some(""), Some("held"), None, None, 3), "/api/v1/ops/orders?page=3&per_page=20&status=held");
    assert_eq!(
        list_orders_url(Some("p1"), None, None, Some("Bo Li"), Some("0042"), 1),
        "/api/v1/ops/orders?page=1&per_page=20&passenger_id=p1&passenger_name=Bo%20Li&phone_last4=0042"
    );
    assert_eq!(order_by_number_path("ORD-1 2"), "/api/v1/ops/orders/by-number/ORD-1%202");
    assert_eq!(order_action_path("o9", OrderAction::FeeOverride), "/api/v1/ops/orders/o9/fee-override");
}

#[test]
fn ops_passenger_masking() {
    let mut p = PassengerItem {
        id: "p".to_owned(),
        full_name: "Ann".to_owned(),
        phone_last4: Some("4321".to_owned()),
        created_at: String::new(),
        pii_purge_requested_at: None,
        pii_purged_at: None,
    };
    assert_eq!(p.masked_phone(), "•••• 4321");
    assert!(!p.is_purged());
    p.phone_last4 = None;
    p.pii_purged_at = Some("2025-01-01".to_owned());
    assert_eq!(p.masked_phone(), "—");
    assert!(p.is_purged());
}

#[test]
fn rules_categories_and_path() {
    let mk = |k: &str| BusinessRule {
        id: "1".to_owned(),
        rule_key: k.to_owned(),
        rule_value: "v".to_owned(),
        description: None,
        updated_by: None,
        updated_at: String::new(),
    };
    assert_eq!(mk("refund_window_hours").category(), "Orders & Refunds");
    assert_eq!(mk("order_hold_ttl").category(), "Orders & Refunds");
    assert_eq!(mk("similarity_threshold").category(), "Content Quality");
    assert_eq!(mk("crawl_workers").category(), "Data Ingestion");
    assert_eq!(mk("lockout_minutes").category(), "Security & Sessions");
    assert_eq!(mk("misc").category(), "General");
    assert_eq!(rule_path("refund_pct"), "/api/v1/rules/refund_pct");
}

#[test]
fn staffing_paths() {
    assert_eq!(
        list_shifts_path("open", "", "driver", 2),
        "/api/v1/staffing/shifts?page=2&per_page=20&status=open&role=driver"
    );
    assert_eq!(
        list_contractors_path("west", Some(false), 1),
        "/api/v1/staffing/contractors?page=1&per_page=20&region=west&is_active=false"
    );
    assert_eq!(respond_path("a1"), "/api/v1/staffing/assignments/a1/respond");
}

#[test]
fn credential_paths_use_hyphenated_uuid() {
    let id: u128 = 0x0123456789abcdef0011223344556677;
    assert_eq!(credential_path(id), "/api/v1/credentials/01234567-89ab-cdef-0011-223344556677");
    assert_eq!(review_path(id), "/api/v1/credentials/01234567-89ab-cdef-0011-223344556677/review");
    assert_eq!(audit_path(id), "/api/v1/credentials/01234567-89ab-cdef-0011-223344556677/audit");
    assert_eq!(esign_path(id), "/api/v1/credentials/01234567-89ab-cdef-0011-223344556677/esign");
    assert_eq!(
        esignatures_path("order", 0xa1a2a3a4b1b2c1c2d1d2d3d4d5d6d7d8),
        "/api/v1/esignatures/order/a1a2a3a4-b1b2-c1c2-d1d2-d3d4d5d6d7d8"
    );
}

#[test]
fn credential_listing_path() {
    assert_eq!(list_credentials_path(None, None, 1), "/api/v1/credentials?page=1&per_page=20");
    assert_eq!(
        list_credentials_path(Some(1), Some("pending"), 4),
        "/api/v1/credentials?page=4&per_page=20&contractor_id=00000000-0000-0000-0000-000000000001&status=pending"
    );
}

#[test]
fn credential_forms() {
    let r = ReviewBody::new("approved", "   ");
    assert_eq!(r.status, "approved");
    assert!(r.review_notes.is_none());
    let r2 = ReviewBody::new("rejected", "  blurry scan ");
    assert_eq!(r2.review_notes, Some("blurry scan".to_owned()));

    assert_eq!(EsignBody::from_form(" ", "2025-01-01").err(), Some(ESIGN_REQUIRED));
    assert_eq!(ESIGN_REQUIRED, "Signer name and date are required.");
    let b = EsignBody::from_form(" Ann Lee ", " 2025-01-01").ok().unwrap();
    assert_eq!(b.signer_name, "Ann Lee");
    assert_eq!(b.signed_date, "2025-01-01");

    assert_eq!(UploadFields::from_form("", "", "").err(), Some(CONTRACTOR_REQUIRED));
    assert_eq!(UploadFields::from_form("c1", " ", "").err(), Some(DOCUMENT_TYPE_REQUIRED));
    assert_eq!(CONTRACTOR_REQUIRED, "Contractor ID is required.");
    assert_eq!(DOCUMENT_TYPE_REQUIRED, "Document type is required.");
    let u = UploadFields::from_form(" c1 ", "license", " ").ok().unwrap();
    assert_eq!(u.contractor_id, "c1");
    assert_eq!(u.document_type, "license");
    assert!(u.expires_at.is_none());
    let v = UploadFields::from_form("c1", "license", "2026-01-01").ok().unwrap();
    assert_eq!(v.expires_at, Some("2026-01-01".to_owned()));
}

#[test]
fn credential_sweep_messages() {
    assert_eq!(sweep_message(3), "Sweep complete — 3 credential(s) expired.");
    assert_eq!(sweep_message_of_body(r#"{"expired_count": 7}"#), "Sweep complete — 7 credential(s) expired.");
    assert_eq!(sweep_message_of_body("not json"), "Sweep complete — 0 credential(s) expired.");
    assert_eq!(total_pages(0), 0);
    assert_eq!(total_pages(20), 1);
    assert_eq!(total_pages(21), 2);
    assert_eq!(total_pages(-30), 0);
}

fn schedule_row(dep: &str, arr: &str) -> ScheduleRow {
    ScheduleRow {
        id: "s1".to_owned(),
        route_id: "r1".to_owned(),
        route_code: "EW-001".to_owned(),
        route_name: "EastWest Express".to_owned(),
        origin_city: "A".to_owned(),
        destination_city: "B".to_owned(),
        train_number: "T1".to_owned(),
        departure_time: dep.to_owned(),
        arrival_time: arr.to_owned(),
        status: "scheduled".to_owned(),
        delay_minutes: 0,
        platform: None,
        updated_at: dep.to_owned(),
    }
}

#[test]
fn schedule_row_labels() {
    let s = schedule_row("2024-01-15T14:30:00Z", "2024-02-29T08:05:00Z");
    assert_eq!(s.route_label(), "EW-001 → EastWest Express");
    assert_eq!(s.fmt_departure(), "Mon 15 Jan 14:30");
    assert_eq!(s.fmt_arrival(), "Feb 29 08:05");
    assert_eq!(fmt_day_dt("2024-02-29T08:05:00Z"), "Thu 29 Feb 08:05");
}

#[test]
fn weekday_labels() {
    assert_eq!(fmt_day_dt("2026-06-07T23:59"), "Sun 7 Jun 23:59");
    assert_eq!(fmt_day_dt("2000-03-01T00:00:00Z"), "Wed 1 Mar 00:00");
    assert_eq!(fmt_day_dt("1900-03-01T12:00:00Z"), "Thu 1 Mar 12:00");
    assert_eq!(fmt_day_dt("2023-02-29T10:00:00Z"), "??? 29 Feb 10:00");
    assert_eq!(fmt_day_dt("2024-13-01T10:00:00Z"), "??? 1 ??? 10:00");
    assert_eq!(fmt_day_dt("2024-01-15"), "2024-01-15");
    assert_eq!(fmt_day_dt("2024/01/15T10:00"), "2024/01/15T10:00");
}
