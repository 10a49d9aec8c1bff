use railops::api::kiosk::{ArchiveEntry, CategoryCount};
use railops::api::ops::{OrderItem, PassengerItem};
use railops::api::rules::BusinessRule;
use railops::pages::kiosk::archive::{breadcrumb, group_by_year, month_heading, ArchiveQuery};
use railops::pages::kiosk::article::{article_body, body_paragraphs, route_label, tag_chip, ArticleBody};
use railops::pages::kiosk::home::{card_class, card_count_label, category_count, home_categories, latest_url, search_target};
use railops::pages::kiosk::search::{
    chip_labels, is_fuzzy, no_results_message, pager, results_heading, tag_toggle, visible_pages,
    SearchQuery,
};
use railops::pages::login::login_error;
use railops::pages::ops::credentials::{
    audit_action_color, fingerprint_label, list_path, page_label, review_view, reviewed_message, tabs, CredentialTab,
    ReviewView, ONLY_PENDING,
};
use railops::pages::ops::layout::{page_controls, page_of_label, PageControls};
use railops::pages::ops::orders::{
    action_request, can_manage_orders, classify_search, offered_actions, orders_request, pii_status,
    purge_cell, rebooked_message, seat_line, single_order_page, ActionRequest, OrderActionKind,
    OrderSearch, OrdersRequest, PiiStatus, PurgeCell,
};
use railops::pages::ops::rules::{apply_saved_rule, editor_key, group_by_category, EditorKey, RuleEditor};
use railops::pages::ops::schedules::{
    can_manage_schedules, delay_label, free_bar_style, inventory_body, status_update_body,
    DetailPanel, PanelForm, ScheduleFilters, AVAILABLE_NOT_NUMBER, TOTAL_NOT_NUMBER,
};
use railops::pages::ops::staffing::{
    active_toggle, can_manage_staffing, fmt_dt_short, parse_active_filter, rank_label, short_target,
    ContractorFilters, ShiftFilters,
};
use railops::shared::UserRole;

#[test]
fn article_body_paragraphs() {
    let p = body_paragraphs("  First para. \n\n\n\nSecond\nline  \n\n   \n\nThird");
    assert_eq!(p, vec!["First para.".to_owned(), "Second\nline".to_owned(), "Third".to_owned()]);
    assert!(body_paragraphs("").is_empty());
    assert!(body_paragraphs(" \n\n \n\n").is_empty());
    assert_eq!(body_paragraphs("one"), vec!["one".to_owned()]);
    assert_eq!(body_paragraphs("a\n\n\nb"), vec!["a".to_owned(), "b".to_owned()]);
    assert_eq!(tag_chip("rail"), "#rail");
    assert_eq!(route_label("R7"), "Route R7");
}

#[test]
fn search_query_transitions() {
    let mut q = SearchQuery { category: Some("fares".to_owned()), page: Some(4), ..Default::default() };
    q.set_text("  late trains ");
    assert_eq!(q.q, Some("late trains".to_owned()));
    assert_eq!(q.page, None);
    assert_eq!(q.category, Some("fares".to_owned()));
    q.set_page(3);
    q.set_text("   ");
    assert_eq!(q.q, None);
    assert_eq!(q.page, None);
    q.set_city("Denver".to_owned());
    assert_eq!(q.city, Some("Denver".to_owned()));
    q.set_city(String::new());
    assert_eq!(q.city, None);
    q.set_departure_from(" 2026-06-01".to_owned());
    assert_eq!(q.departure_from, Some(" 2026-06-01".to_owned()));
    q.set_tag(Some("wifi".to_owned()));
    q.set_page(2);
    assert_eq!(q.fetch_page(), 2);
    assert_eq!(q.request_url(), "/api/v1/kiosk/content?page=2&per_page=12&category=fares&tag=wifi&departure_from=%202026-06-01");
    q.clear_text();
    q.set_category(None);
    assert_eq!(q.fetch_page(), 1);
    assert_eq!(q.request_url(), "/api/v1/kiosk/content?page=1&per_page=12&tag=wifi&departure_from=%202026-06-01");
    q.set_city("Den ver".to_owned());
    q.set_departure_to("2026-06-30".to_owned());
    assert_eq!(
        q.request_url(),
        "/api/v1/kiosk/content?page=1&per_page=12&tag=wifi&city=Den%20ver&departure_from=%202026-06-01&departure_to=2026-06-30"
    );
}

#[test]
fn search_query_entry_points() {
    let t = SearchQuery::for_text("wifi".to_owned());
    assert_eq!(t, SearchQuery { q: Some("wifi".to_owned()), ..Default::default() });
    let c = SearchQuery::for_category("fares".to_owned());
    assert_eq!(c.request_url(), "/api/v1/kiosk/content?page=1&per_page=12&category=fares");
    let g = SearchQuery::for_tag("rail".to_owned());
    assert_eq!(g.tag, Some("rail".to_owned()));
    assert_eq!(g.q, None);
}

#[test]
fn search_tag_toggle() {
    assert_eq!(tag_toggle(Some("wifi"), "wifi"), None);
    assert_eq!(tag_toggle(Some("wifi"), "food"), Some("food".to_owned()));
    assert_eq!(tag_toggle(None, "food"), Some("food".to_owned()));
}

#[test]
fn search_results_heading() {
    assert_eq!(results_heading(Some("fts"), 12, "rail"), "12 results for \"rail\"");
    assert_eq!(
        results_heading(Some("fuzzy"), 3, "rial"),
        "Showing approximate matches for \"rial\" (3 results)"
    );
    assert_eq!(results_heading(None, 0, "zzz"), "No results for \"zzz\"");
    assert_eq!(results_heading(Some("other"), 40, ""), "40 articles");
    assert_eq!(no_results_message("x"), "No results for \"x\"");
    assert!(is_fuzzy(Some("fuzzy")));
    assert!(!is_fuzzy(Some("fts")));
    assert!(!is_fuzzy(None));
}

#[test]
fn search_chip_labels() {
    assert_eq!(
        chip_labels(Some("delays"), Some("wifi"), Some("Denver")),
        vec!["Category: Delays".to_owned(), "Tag: #wifi".to_owned(), "City: Denver".to_owned()]
    );
    assert!(chip_labels(None, None, None).is_empty());
}

#[test]
fn pagination_window() {
    assert_eq!(visible_pages(1, 10), vec![1, 2, 3]);
    assert_eq!(visible_pages(5, 10), vec![3, 4, 5, 6, 7]);
    assert_eq!(visible_pages(10, 10), vec![8, 9, 10]);
    assert_eq!(visible_pages(2, 2), vec![1, 2]);
    assert!(visible_pages(1, 0).is_empty());
    let p = pager(1, 4);
    assert_eq!(p.prev, 1);
    assert_eq!(p.next, 2);
    assert_eq!(p.last, 4);
    assert!(p.at_first);
    assert!(!p.at_last);
    let q = pager(4, 4);
    assert_eq!(q.next, 4);
    assert!(q.at_last);
}

#[test]
fn archive_grouping_by_year() {
    let e = |y, m, c| ArchiveEntry { year: y, month: m, count: c };
    let groups = group_by_year(&vec![e(2025, 3, 4), e(2025, 1, 2), e(2024, 12, 9), e(2023, 5, 1), e(2023, 4, 1)]);
    assert_eq!(groups.len(), 3);
    assert_eq!(groups[0].year, 2025);
    assert_eq!(groups[0].entries, vec![e(2025, 3, 4), e(2025, 1, 2)]);
    assert_eq!(groups[1].entries, vec![e(2024, 12, 9)]);
    assert_eq!(groups[2].year, 2023);
    assert_eq!(groups[2].entries.len(), 2);
    assert!(group_by_year(&vec![]).is_empty());
    let split = group_by_year(&vec![e(2024, 1, 1), e(2023, 1, 1), e(2024, 2, 1)]);
    assert_eq!(split.len(), 3);
}

#[test]
fn archive_query_navigation() {
    let mut q = ArchiveQuery { year: None, month: None, category: Some("fares".to_owned()), page: Some(3) };
    assert!(!q.shows_month());
    assert_eq!(q.fetch_url(), "/api/v1/kiosk/archive?category=fares&");
    q.select_month(2024, 6);
    assert_eq!(q.page, None);
    assert_eq!(q.category, Some("fares".to_owned()));
    assert!(q.shows_month());
    assert_eq!(q.fetch_url(), "/api/v1/kiosk/archive?year=2024&month=6&page=1&category=fares");
    q.set_page(2);
    q.select_category(None);
    assert_eq!((q.year, q.month, q.page), (Some(2024), Some(6), None));
    assert_eq!(month_heading(6, 2024), "June 2024");
    assert_eq!(breadcrumb(Some(2024), Some(6)), vec!["2024".to_owned(), "June".to_owned()]);
    assert_eq!(breadcrumb(Some(2024), None), vec!["2024".to_owned()]);
    assert!(breadcrumb(None, Some(6)).is_empty());
}

#[test]
fn home_topic_cards() {
    let cards = home_categories();
    let keys: Vec<&str> = cards.iter().map(|c| c.key).collect();
    assert_eq!(keys, vec!["delays", "fares", "baggage", "accessibility", "general"]);
    assert_eq!(cards[1].label, "Fares & Tickets");
    assert_eq!(
        card_class(&cards[0]),
        "group flex flex-col items-center justify-center gap-3 p-5 rounded-2xl border-2 bg-red-50 border-red-200 text-red-900 min-h-[120px] text-center hover:shadow-md hover:scale-[1.02] active:scale-[0.98] transition-all cursor-pointer"
    );
    let counts = vec![
        CategoryCount { category: "fares".to_owned(), count: 4 },
        CategoryCount { category: "delays".to_owned(), count: 9 },
        CategoryCount { category: "fares".to_owned(), count: 1 },
    ];
    assert_eq!(category_count(&counts, "fares"), 4);
    assert_eq!(category_count(&counts, "baggage"), 0);
    assert_eq!(card_count_label(9), Some("9 articles".to_owned()));
    assert_eq!(card_count_label(0), None);
    assert_eq!(search_target("  wifi "), Some("wifi".to_owned()));
    assert_eq!(search_target("   "), None);
    assert_eq!(latest_url(), "/api/v1/kiosk/content?page=1&per_page=6");
}

#[test]
fn login_form_checks() {
    assert_eq!(login_error("  ", "whatever-long-pass"), Some("Username and password are required.".to_owned()));
    assert_eq!(login_error("ann", ""), Some("Username and password are required.".to_owned()));
    assert_eq!(login_error("ann", "short"), Some("Password must be at least 12 characters.".to_owned()));
    assert_eq!(login_error("ann", "exactly12chr"), None);
    // Eleven characters but thirteen bytes: long enough, as str::len counts bytes.
    assert_eq!(login_error("ann", "ééabcdefghi"), None);
    assert_eq!(login_error("ann", " padded pw "), Some("Password must be at least 12 characters.".to_owned()));
}

fn order(status: &str, disrupted: bool) -> OrderItem {
    OrderItem {
        id: "o1".to_owned(),
        order_number: "ORD-1".to_owned(),
        passenger_id: "p".to_owned(),
        schedule_id: "s".to_owned(),
        seat_class_id: "c".to_owned(),
        seat_number: None,
        status: status.to_owned(),
        fare_amount: "10.00".to_owned(),
        fee_override_amount: None,
        fee_override_reason: None,
        hold_expires_at: None,
        cancellation_reason: None,
        refund_amount: None,
        disruption_flag: disrupted,
        created_at: String::new(),
    }
}

#[test]
fn orders_permissions_and_search() {
    assert!(can_manage_orders(UserRole::CsAgent));
    assert!(!can_manage_orders(UserRole::Dispatcher));
    assert_eq!(classify_search(""), OrderSearch::All);
    assert_eq!(classify_search("ORD-42"), OrderSearch::ByNumber("ORD-42".to_owned()));
    assert_eq!(classify_search("1234"), OrderSearch::ByPhone("1234".to_owned()));
    assert_eq!(classify_search("Ann 1"), OrderSearch::ByName("Ann 1".to_owned()));
    assert_eq!(orders_request("ORD-9", "held", 2), OrdersRequest::ByNumber("/api/v1/ops/orders/by-number/ORD-9".to_owned()));
    assert_eq!(orders_request("Ann", "held", 2), OrdersRequest::List("/api/v1/ops/orders?page=2&per_page=20&status=held&passenger_name=Ann".to_owned()));
    assert_eq!(orders_request("Ann Lee", "", 1), OrdersRequest::List("/api/v1/ops/orders?page=1&per_page=20&passenger_name=Ann%20Lee".to_owned()));
    assert_eq!(orders_request("1234", "held", 1), OrdersRequest::List("/api/v1/ops/orders?page=1&per_page=20&status=held&phone_last4=1234".to_owned()));
    assert_eq!(orders_request("", "held", 1), OrdersRequest::List("/api/v1/ops/orders?page=1&per_page=20&status=held".to_owned()));
    let p = single_order_page(order("held", false));
    assert_eq!((p.total, p.page, p.per_page, p.total_pages, p.items.len()), (1, 1, 20, 1, 1));
}

#[test]
fn orders_offered_actions() {
    type K = OrderActionKind;
    assert_eq!(offered_actions("pending", false, true), vec![K::Confirm, K::Cancel, K::FeeOverride, K::FlagDisruption]);
    assert_eq!(offered_actions("confirmed", true, true), vec![K::Cancel, K::FeeOverride, K::Rebook]);
    assert_eq!(offered_actions("cancelled", false, true), vec![K::Refund, K::FeeOverride, K::FlagDisruption, K::Rebook]);
    assert!(offered_actions("pending", false, false).is_empty());
    let o = order("held", false);
    assert_eq!(offered_actions(&o.status, o.disruption_flag, true)[0], K::Confirm);
}

#[test]
fn orders_action_bodies() {
    match action_request(OrderActionKind::Cancel, "  weather ", "", true, "") {
        ActionRequest::Cancel(b) => {
            assert_eq!(b.reason, "weather");
            assert!(b.disruption_flag);
            assert!(b.refund_amount.is_none());
        }
        _ => panic!("expected a cancellation"),
    }
    match action_request(OrderActionKind::FeeOverride, " waived ", " 0.00 ", false, "") {
        ActionRequest::FeeOverride(b) => {
            assert_eq!(b.override_amount, "0.00");
            assert_eq!(b.reason, "waived");
        }
        _ => panic!("expected a fee override"),
    }
    match action_request(OrderActionKind::Rebook, "  ", "", false, " s2 ") {
        ActionRequest::Rebook(b) => {
            assert_eq!(b.new_schedule_id, "s2");
            assert!(b.reason.is_none());
        }
        _ => panic!("expected a rebooking"),
    }
    assert!(matches!(action_request(OrderActionKind::Confirm, "", "", false, ""), ActionRequest::Confirm));
    assert_eq!(rebooked_message("ORD-77"), "Rebooked → ORD-77");
    assert_eq!(seat_line("Economy", None), "Economy — —");
    assert_eq!(seat_line("Economy", Some("12A")), "Economy — 12A");
}

#[test]
fn orders_passenger_purge_cell() {
    let mut p = PassengerItem {
        id: "p".to_owned(),
        full_name: "Ann".to_owned(),
        phone_last4: None,
        created_at: String::new(),
        pii_purge_requested_at: None,
        pii_purged_at: None,
    };
    assert_eq!(pii_status(&p), PiiStatus::Active);
    assert_eq!(purge_cell(true, false, pii_status(&p)), PurgeCell::Button);
    assert_eq!(purge_cell(true, true, pii_status(&p)), PurgeCell::JustRequested);
    assert_eq!(purge_cell(false, false, pii_status(&p)), PurgeCell::Hidden);
    p.pii_purge_requested_at = Some("x".to_owned());
    assert_eq!(pii_status(&p), PiiStatus::PurgeRequested);
    assert_eq!(purge_cell(true, false, pii_status(&p)), PurgeCell::Empty);
    p.pii_purged_at = Some("y".to_owned());
    assert_eq!(pii_status(&p), PiiStatus::Purged);
}

#[test]
fn schedules_forms_and_panel() {
    assert!(can_manage_schedules(UserRole::OpsAgent));
    assert!(!can_manage_schedules(UserRole::CsAgent));
    let b = status_update_body("delayed", "15", "  4B ");
    assert_eq!(b.status, "delayed");
    assert_eq!(b.delay_minutes, Some(15));
    assert_eq!(b.platform, Some("4B".to_owned()));
    let c = status_update_body("scheduled", "0", "");
    assert_eq!(c.delay_minutes, None);
    assert_eq!(c.platform, None);
    assert_eq!(status_update_body("x", " 5", "").delay_minutes, None);
    assert_eq!(status_update_body("x", "+7", "").delay_minutes, Some(7));
    assert_eq!(inventory_body("c", "abc", "1").err(), Some(TOTAL_NOT_NUMBER));
    assert_eq!(inventory_body("c", "10", "").err(), Some(AVAILABLE_NOT_NUMBER));
    let inv = inventory_body("c", "100", "-3").ok().unwrap();
    assert_eq!((inv.total_seats, inv.available_seats), (100, -3));
    assert_eq!(delay_label(12), Some("Delayed 12 min".to_owned()));
    assert_eq!(delay_label(0), None);
    assert_eq!(free_bar_style(75), "width: 25%");

    let mut panel = DetailPanel::new();
    panel.select("s1".to_owned());
    panel.open(PanelForm::FixInventory);
    panel.failed("Total seats must be a number".to_owned());
    assert_eq!(panel.form, PanelForm::FixInventory);
    panel.succeeded();
    assert_eq!(panel.form, PanelForm::Closed);
    assert!(panel.ok);
    assert!(panel.error.is_none());
    panel.close();
    assert!(panel.selected.is_none());

    let mut f = ScheduleFilters::new();
    f.page = 4;
    f.set_status("delayed".to_owned());
    assert_eq!(f.page, 1);
    assert_eq!(f.list_url(), "/api/v1/ops/schedules?page=1&per_page=20&status=delayed");
}

fn rule(key: &str, value: &str) -> BusinessRule {
    BusinessRule {
        id: key.to_owned(),
        rule_key: key.to_owned(),
        rule_value: value.to_owned(),
        description: None,
        updated_by: None,
        updated_at: String::new(),
    }
}

#[test]
fn rules_grouped_in_fixed_order() {
    let rules = vec![rule("misc_flag", "1"), rule("refund_pct", "50"), rule("session_idle", "30"), rule("order_hold_ttl", "15")];
    let g = group_by_category(&rules);
    let cats: Vec<&str> = g.iter().map(|x| x.category).collect();
    assert_eq!(cats, vec!["Orders & Refunds", "Security & Sessions", "General"]);
    assert_eq!(g[0].indices, vec![1, 3]);
    assert_eq!(g[1].indices, vec![2]);
    assert_eq!(g[2].indices, vec![0]);
    assert!(group_by_category(&vec![]).is_empty());
}

#[test]
fn rules_editor_flow() {
    let mut e = RuleEditor::new();
    e.start("refund_pct".to_owned(), "50".to_owned());
    assert_eq!(e.editing_key, Some("refund_pct".to_owned()));
    e.value = "  60 ".to_owned();
    assert_eq!(e.save_body().unwrap().value, "60");
    e.value = "  ".to_owned();
    assert!(e.save_body().is_none());
    e.saved("refund_pct".to_owned());
    assert!(e.editing_key.is_none());
    assert_eq!(e.saved_key, Some("refund_pct".to_owned()));
    assert_eq!(editor_key("Enter"), EditorKey::Save);
    assert_eq!(editor_key("Escape"), EditorKey::Cancel);
    assert_eq!(editor_key("a"), EditorKey::Ignore);

    let mut rules = vec![rule("a", "1"), rule("b", "2")];
    apply_saved_rule(&mut rules, &rule("b", "9"));
    assert_eq!(rules[0].rule_value, "1");
    assert_eq!(rules[1].rule_value, "9");
}

#[test]
fn staffing_filters_and_labels() {
    assert!(can_manage_staffing(UserRole::Dispatcher));
    assert!(!can_manage_staffing(UserRole::OpsAgent));
    assert_eq!(fmt_dt_short("2025-06-01T08:00:00Z"), "2025-06-01 08:00");
    assert_eq!(fmt_dt_short("2025-06-01"), "2025-06-01");
    assert_eq!(parse_active_filter("true"), Some(true));
    assert_eq!(parse_active_filter("false"), Some(false));
    assert_eq!(parse_active_filter(""), None);
    let mut s = ShiftFilters::new();
    s.page = 3;
    s.set_role("driver".to_owned());
    assert_eq!(s.page, 1);
    assert_eq!(s.list_path(), "/api/v1/staffing/shifts?page=1&per_page=20&role=driver");
    let mut c = ContractorFilters::new();
    c.set_active("false");
    assert_eq!(c.list_path(), "/api/v1/staffing/contractors?page=1&per_page=20&is_active=false");
    assert_eq!(active_toggle(true), ("Deactivate", false));
    assert_eq!(rank_label(0), "1.");
    assert_eq!(short_target("0123456789abcdef"), "01234567…");
}

#[test]
fn credentials_page_pieces() {
    assert_eq!(tabs(true), vec![CredentialTab::Info, CredentialTab::Review, CredentialTab::Esign, CredentialTab::Audit]);
    assert_eq!(tabs(false), vec![CredentialTab::Info, CredentialTab::Esign, CredentialTab::Audit]);
    assert_eq!(review_view(CredentialTab::Review, true, "pending"), ReviewView::Form);
    assert_eq!(review_view(CredentialTab::Review, true, "approved"), ReviewView::NotPending);
    assert_eq!(review_view(CredentialTab::Review, false, "pending"), ReviewView::Hidden);
    assert_eq!(review_view(CredentialTab::Esign, true, "pending"), ReviewView::Hidden);
    assert_eq!(ONLY_PENDING, "Only pending credentials can be reviewed.");
    assert_eq!(list_path("", 2), "/api/v1/credentials?page=2&per_page=20");
    assert_eq!(list_path("expired", 1), "/api/v1/credentials?page=1&per_page=20&status=expired");
    assert_eq!(page_label(2, 5), "Page 2 / 5");
    assert_eq!(reviewed_message("approved"), "Credential approved.");
    assert_eq!(audit_action_color("esigned"), "text-indigo-700 bg-indigo-50");
    assert_eq!(audit_action_color("viewed"), "text-slate-600 bg-slate-50");
}

#[test]
fn console_page_controls() {
    assert_eq!(page_of_label(2, 7), "Page 2 of 7");
    assert_eq!(page_controls(1, 1), PageControls { shown: false, prev: false, next: false });
    assert_eq!(page_controls(2, 3), PageControls { shown: true, prev: true, next: true });
    assert_eq!(page_controls(3, 3), PageControls { shown: true, prev: true, next: false });
}

#[test]
fn article_body_falls_back_to_whole_text() {
    assert_eq!(
        article_body(" First \n\n\n\nSecond"),
        ArticleBody::Paragraphs(vec!["First".to_owned(), "Second".to_owned()])
    );
    assert_eq!(article_body("  \n\n \n"), ArticleBody::Whole("  \n\n \n".to_owned()));
    assert_eq!(article_body(""), ArticleBody::Whole(String::new()));
}

#[test]
fn fingerprint_label_cuts_at_sixteen_bytes() {
    assert_eq!(fingerprint_label("0123456789abcdef0123"), "0123456789abcdef…");
    assert_eq!(fingerprint_label("0123456789abcdef"), "0123456789abcdef…");
}
