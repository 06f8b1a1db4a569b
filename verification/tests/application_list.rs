use azapptoolkit_views::audit::{BulkAction, ListCredentialStatus};
use azapptoolkit_views::lists::application_list::{
    app_name, as_facet, bulk_actions, cap_notice, cmp_missing_last, credential_meta, empty_words, sort_glyph, sort_rows,
    view_row, visible_ids, AppSortCol, ApplicationList, ApplicationListRow,
};
use azapptoolkit_views::lists::filters::{
    count_text, created_in_range, empty_list, is_hit, needle, row_class, EmptyList,
};
use azapptoolkit_views::time::Timestamp;
use chrono::{DateTime, Duration, TimeZone, Utc};
use std::cmp::Ordering;

fn stamp(t: DateTime<Utc>) -> Timestamp {
    Timestamp::new(t.timestamp(), t.timestamp_subsec_nanos()).unwrap()
}

fn at(days: i64) -> Timestamp {
    stamp(Utc.with_ymd_and_hms(2026, 9, 2, 12, 0, 0).unwrap() + Duration::days(days))
}

fn row(name: &str, expiry: Option<i64>, created: Option<i64>) -> ApplicationListRow {
    ApplicationListRow {
        id: name.to_string(),
        app_id: format!("{name}-appid"),
        display_name: name.to_string(),
        created: created.map(at),
        soonest_credential_expiry: expiry.map(at),
        credential_status: ListCredentialStatus::NoCredentials,
        paired_service_principal_id: None,
    }
}

fn names(rows: &[ApplicationListRow], col: AppSortCol, desc: bool) -> Vec<&str> {
    let all: Vec<usize> = (0..rows.len()).collect();
    sort_rows(rows, &all, col, desc)
        .into_iter()
        .map(|i| rows[i].display_name.as_str())
        .collect()
}

#[test]
fn name_sort_is_case_insensitive_in_both_directions() {
    let rows = vec![row("beta", None, None), row("Alpha", None, None)];
    assert_eq!(names(&rows, AppSortCol::Name, false), ["Alpha", "beta"]);
    assert_eq!(names(&rows, AppSortCol::Name, true), ["beta", "Alpha"]);
}

#[test]
fn expiry_sort_puts_the_soonest_first_by_default() {
    let rows = vec![
        row("far", Some(90), None),
        row("soon", Some(3), None),
        row("gone", Some(-10), None),
    ];
    let desc = AppSortCol::Expiry.default_desc();
    assert_eq!(names(&rows, AppSortCol::Expiry, desc), ["gone", "soon", "far"]);
}

#[test]
fn created_sort_puts_the_newest_first_by_default() {
    let rows = vec![row("old", None, Some(-400)), row("new", None, Some(-2))];
    let desc = AppSortCol::Created.default_desc();
    assert_eq!(names(&rows, AppSortCol::Created, desc), ["new", "old"]);
}

#[test]
fn a_missing_value_sorts_last_in_both_directions() {
    let rows = vec![
        row("none", None, None),
        row("far", Some(90), None),
        row("soon", Some(3), None),
    ];
    assert_eq!(names(&rows, AppSortCol::Expiry, false), ["soon", "far", "none"]);
    assert_eq!(names(&rows, AppSortCol::Expiry, true), ["far", "soon", "none"]);
}

#[test]
fn credential_meta_reuses_the_dashboard_badge_vocabulary() {
    let tone = |s| credential_meta(s, None, at(0)).tone;
    assert_eq!(tone(ListCredentialStatus::Active), "ok");
    assert_eq!(tone(ListCredentialStatus::Expiring), "warning");
    assert_eq!(tone(ListCredentialStatus::Expired), "danger");
    assert_eq!(tone(ListCredentialStatus::NoCredentials), "unknown");
}

#[test]
fn credential_meta_reads_forward_to_an_expiry_and_back_from_a_lapse() {
    let now = at(0);
    let soon = credential_meta(ListCredentialStatus::Expiring, Some(at(12)), now);
    assert_eq!(soon.expiry.as_deref(), Some("12d left"));
    assert_eq!(soon.exact.as_deref(), Some("2026-09-14"));

    let lapsed = credential_meta(ListCredentialStatus::Expired, Some(at(-3)), now);
    assert_eq!(lapsed.expiry.as_deref(), Some("3 days ago"));

    let bare = credential_meta(ListCredentialStatus::NoCredentials, None, now);
    assert!(bare.expiry.is_none() && bare.exact.is_none());
}

#[test]
fn equal_names_turn_round_with_the_list() {
    let mut rows = vec![row("same", None, None), row("SAME", None, None), row("a", None, None)];
    rows[0].id = "first".into();
    let all = vec![0, 1, 2];
    assert_eq!(sort_rows(&rows, &all, AppSortCol::Name, false), vec![2, 0, 1]);
    assert_eq!(sort_rows(&rows, &all, AppSortCol::Name, true), vec![1, 0, 2]);
    // Equal dates keep the loaded order both ways.
    let dated = vec![row("x", Some(1), None), row("y", Some(1), None)];
    assert_eq!(names(&dated, AppSortCol::Expiry, false), ["x", "y"]);
    assert_eq!(names(&dated, AppSortCol::Expiry, true), ["x", "y"]);
}

#[test]
fn an_unknown_creation_is_last_both_ways() {
    let rows = vec![row("none", None, None), row("old", None, Some(-9)), row("new", None, Some(-1))];
    assert_eq!(names(&rows, AppSortCol::Created, true), ["new", "old", "none"]);
    assert_eq!(names(&rows, AppSortCol::Created, false), ["old", "new", "none"]);
}

#[test]
fn a_button_cycles_back_to_the_loaded_order() {
    let mut list = ApplicationList::new();
    assert_eq!(sort_glyph(list.sort, AppSortCol::Created), "");
    list.toggle_sort(AppSortCol::Created);
    assert_eq!(list.sort, Some((AppSortCol::Created, true)));
    assert_eq!(sort_glyph(list.sort, AppSortCol::Created), " ↓");
    list.toggle_sort(AppSortCol::Created);
    assert_eq!(list.sort, Some((AppSortCol::Created, false)));
    list.toggle_sort(AppSortCol::Created);
    assert_eq!(list.sort, None);
    list.toggle_sort(AppSortCol::Name);
    list.toggle_sort(AppSortCol::Expiry);
    assert_eq!(list.sort, Some((AppSortCol::Expiry, false)));
    assert_eq!(sort_glyph(list.sort, AppSortCol::Expiry), " ↑");
    assert_eq!(AppSortCol::Name.label(), "Name");
    assert_eq!(AppSortCol::Expiry.label(), "Soonest expiry");
    assert_eq!(AppSortCol::Created.label(), "Created");
}

fn inventory() -> Vec<ApplicationListRow> {
    let mut rows = vec![
        row("Payroll", Some(3), Some(-10)),
        row("payslips", Some(-3), Some(-20)),
        row("Mail", None, None),
        row("Archive", Some(90), Some(-30)),
    ];
    rows[0].credential_status = ListCredentialStatus::Expiring;
    rows[1].credential_status = ListCredentialStatus::Expired;
    rows[3].credential_status = ListCredentialStatus::Active;
    rows
}

#[test]
fn chips_count_what_they_show() {
    let rows = inventory();
    let mut list = ApplicationList::new();
    let all = list.loaded(&rows, "");
    assert_eq!((all.total, all.base_total), (4, 4));
    assert_eq!((all.active, all.expiring, all.expired, all.none), (1, 1, 1, 1));
    assert_eq!(all.shown, vec![0, 1, 2, 3]);
    assert_eq!(all.sorted, all.shown);
    // A search narrows the chips too, whatever its case and its outer spaces.
    let paid = list.loaded(&rows, "  PAY ");
    assert_eq!((paid.base_total, paid.expiring, paid.expired), (2, 1, 1));
    assert_eq!(paid.shown, vec![0, 1]);
    // By application id as well.
    assert_eq!(list.loaded(&rows, "archive-APPID").shown, vec![3]);
    for (status, n) in [
        (ListCredentialStatus::Active, vec![3]),
        (ListCredentialStatus::Expiring, vec![0]),
        (ListCredentialStatus::Expired, vec![1]),
        (ListCredentialStatus::NoCredentials, vec![2]),
    ] {
        list.cred_filter = as_facet(status).to_string();
        assert_eq!(list.loaded(&rows, "").shown, n);
        assert_eq!(list.loaded(&rows, "").base_total, 4);
    }
    list.cred_filter = "no such facet".to_string();
    assert_eq!(list.loaded(&rows, "").shown.len(), 4);
}

#[test]
fn the_shown_rows_are_sorted_and_exported_as_sorted() {
    let rows = inventory();
    let mut list = ApplicationList::new();
    list.sort = Some((AppSortCol::Expiry, false));
    let l = list.loaded(&rows, "");
    assert_eq!(l.shown, vec![0, 1, 2, 3]);
    assert_eq!(l.sorted, vec![1, 0, 3, 2]);
    assert_eq!(visible_ids(&rows, &l.shown), ["Payroll", "payslips", "Mail", "Archive"]);
}

#[test]
fn a_failure_names_the_app() {
    let mut rows = inventory();
    assert_eq!(app_name(&rows, "Mail").as_deref(), Some("Mail"));
    assert_eq!(app_name(&rows, "gone"), None);
    rows[3].id = "Mail".to_string();
    assert_eq!(app_name(&rows, "Mail").as_deref(), Some("Archive"));
}

#[test]
fn the_creation_range_is_inclusive() {
    let day = at(0).day();
    assert!(created_in_range(Some(at(0)), Some(day), Some(day)));
    assert!(!created_in_range(Some(at(0)), Some(day + 1), None));
    assert!(!created_in_range(Some(at(0)), None, Some(day - 1)));
    assert!(created_in_range(None, None, None));
    assert!(!created_in_range(None, Some(day), None));
    assert!(!created_in_range(None, None, Some(day)));
    let rows = inventory();
    let mut list = ApplicationList::new();
    list.created_after = Some(at(-20).day());
    list.created_before = Some(at(-10).day());
    assert_eq!(list.loaded(&rows, "").shown, vec![0, 1]);
    assert_eq!(list.active_filters(), 2);
    list.cred_filter = "expired".to_string();
    assert_eq!(list.active_filters(), 3);
    assert_eq!(ApplicationList::new().active_filters(), 0);
}

#[test]
fn the_list_speaks_plainly() {
    assert_eq!(count_text(4, 4, "app registrations"), "4 app registrations");
    assert_eq!(count_text(1, 4, "app registrations"), "1 of 4 app registrations");
    assert_eq!(cap_notice(9_999), None);
    assert_eq!(
        cap_notice(10_000).as_deref(),
        Some("Loaded the first 10000 apps — search and filters apply within this set.")
    );
    assert_eq!(empty_list(0, 0), Some(EmptyList::NoneYet));
    assert_eq!(empty_list(0, 9), Some(EmptyList::NoMatch));
    assert_eq!(empty_list(1, 9), None);
    assert_eq!(empty_words(EmptyList::NoneYet).0, "No app registrations yet");
    assert_eq!(empty_words(EmptyList::NoMatch).0, "No matching apps");
    assert_eq!(row_class(false), "app-list__row");
    assert_eq!(row_class(true), "app-list__row app-list__row--selected");
    assert_eq!(
        bulk_actions(),
        vec![BulkAction::Grant, BulkAction::RemoveExpired, BulkAction::Delete]
    );
}

#[test]
fn a_row_names_itself_by_id_where_it_has_no_name() {
    let mut r = row("", Some(12), None);
    r.app_id = "1111".into();
    r.credential_status = ListCredentialStatus::Expiring;
    let v = view_row(&r, at(0));
    assert_eq!(v.name, "1111");
    assert_eq!(v.check_label, "Select 1111 (1111) for bulk actions");
    assert_eq!(v.row_label, "1111 (1111) — Expiring, 12d left");
    let bare = view_row(&row("Mail", None, None), at(0));
    assert_eq!(bare.row_label, "Mail (Mail-appid) — No creds");
}

#[test]
fn a_search_ignores_case_beyond_ascii() {
    let n = needle(" ÄRGER ");
    assert_eq!(n.as_deref(), Some("ärger"));
    assert!(is_hit("Viel Ärger", &n));
    assert!(!is_hit("Freude", &n));
    assert_eq!(needle(" \t "), None);
    assert!(is_hit("anything", &None));
}

#[test]
fn refreshing_needs_a_tenant() {
    let mut list = ApplicationList::new();
    assert!(!list.on_refresh(&None));
    assert!(!list.refreshing);
    assert!(list.on_refresh(&Some("t".into())));
    assert!(list.refreshing);
    list.load_ended();
    assert!(!list.refreshing);
}

#[test]
fn a_missing_value_comes_last_for_every_ordered_type() {
    for desc in [false, true] {
        assert_eq!(cmp_missing_last::<u8>(None, None, desc), Ordering::Equal);
        assert_eq!(cmp_missing_last(None, Some(&1), desc), Ordering::Greater);
        assert_eq!(cmp_missing_last(Some(&"a"), None, desc), Ordering::Less);
        assert_eq!(cmp_missing_last(Some(&"a"), Some(&"a"), desc), Ordering::Equal);
    }
    assert_eq!(cmp_missing_last(Some(&"a"), Some(&"b"), false), Ordering::Less);
    assert_eq!(cmp_missing_last(Some(&"a"), Some(&"b"), true), Ordering::Greater);
    assert_eq!(cmp_missing_last(Some(&2), Some(&1), true), Ordering::Less);
}
