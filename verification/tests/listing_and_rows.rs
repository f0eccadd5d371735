use webadmin::fetch::{DeleteRun, NameList, PageLoad, PrincipalFetch};
use webadmin::route::Method;
use webadmin::selection::{confirm_bulk_delete, confirm_row_delete, select_kind, Selection};
use webadmin::listing::{
    all_keys, bulk_delete_confirmation, delete_report, purge_report, Alert, create_button_label, create_new_label, delete_button_label,
    deleted_message, headers, listing_view, purge_requested_message, row_key, subtitle, title,
    ListingView,
};
use webadmin::principal::{HttpError, Principal, PrincipalPage, PrincipalType};
use webadmin::row::{
    badge_color, close_menu, is_menu_open, principal_row, row_delete_confirmation, toggle_menu, usage_label,
    usage_text, BadgeColor,
};

fn principal(name: Option<&str>) -> Principal {
    Principal {
        typ: None,
        quota: None,
        used_quota: None,
        name: name.map(|s| s.to_string()),
        description: None,
        emails: vec![],
        members: vec![],
        member_of: vec![],
    }
}

#[test]
fn titles_and_headers() {
    assert_eq!(title(PrincipalType::Individual), "Accounts");
    assert_eq!(title(PrincipalType::List), "Mailing Lists");
    assert_eq!(subtitle(PrincipalType::Group), "Manage groups");
    assert_eq!(
        headers(PrincipalType::Individual),
        vec!["Name", "E-mail", "Type", "Usage", "Member of", ""]
    );
    assert_eq!(
        headers(PrincipalType::Group),
        vec!["Name", "E-mail", "Type", "Members", "Member of", ""]
    );
    assert_eq!(headers(PrincipalType::List), vec!["Name", "E-mail", "Type", "Members", ""]);
}

#[test]
fn toolbar_labels() {
    assert_eq!(delete_button_label(0), "Delete");
    assert_eq!(delete_button_label(3), "Delete (3)");
    assert_eq!(create_button_label(PrincipalType::Individual), "Create account");
    assert_eq!(create_new_label(PrincipalType::List), "Create a new list");
}

#[test]
fn bulk_delete_dialog() {
    assert!(bulk_delete_confirmation(PrincipalType::Group, 0).is_none());
    let c = bulk_delete_confirmation(PrincipalType::Group, 2).unwrap();
    assert_eq!(c.title, "Confirm deletion");
    assert_eq!(c.message, "Are you sure you want to delete 2 groups? This action cannot be undone.");
    assert_eq!(c.button, "Delete 2 groups");
    let c = bulk_delete_confirmation(PrincipalType::Individual, 1).unwrap();
    assert_eq!(c.button, "Delete 1 account");
}

#[test]
fn action_messages() {
    assert_eq!(deleted_message(PrincipalType::List, 1), "Deleted 1 list.");
    assert_eq!(deleted_message(PrincipalType::Individual, 4), "Deleted 4 accounts.");
    assert_eq!(purge_requested_message("jane"), "Account purge requested for jane.");
}

#[test]
fn listing_view_cases() {
    assert!(matches!(listing_view(None), ListingView::Loading));
    assert!(matches!(listing_view(Some(Err(HttpError::Unauthorized))), ListingView::Login));
    assert!(matches!(
        listing_view(Some(Err(HttpError::Other("boom".into())))),
        ListingView::Alert(HttpError::Other(ref m)) if m == "boom"
    ));
    assert!(matches!(listing_view(Some(Err(HttpError::NotFound))), ListingView::Alert(HttpError::NotFound)));
    let empty = PrincipalPage { items: vec![], total: 5 };
    let v = listing_view(Some(Ok(empty)));
    assert!(matches!(v, ListingView::NoResults));
    assert_eq!(v.total_results(), Some(0));
    let page = PrincipalPage { items: vec![principal(Some("a"))], total: 42 };
    let v = listing_view(Some(Ok(page)));
    assert!(matches!(v, ListingView::Table { total_results: 42, ref page } if page.items.len() == 1));
    assert_eq!(v.total_results(), Some(42));
    assert_eq!(ListingView::Login.total_results(), None);
    assert_eq!(ListingView::Alert(HttpError::NotFound).total_results(), Some(0));
    let big = PrincipalPage { items: vec![principal(Some("a"))], total: (1u64 << 32) + 7 };
    assert!(matches!(listing_view(Some(Ok(big))), ListingView::Table { total_results: 7, .. }));
}

#[test]
fn keys_of_rows() {
    let page = PrincipalPage {
        items: vec![principal(Some("a")), principal(None), principal(Some("c"))],
        total: 3,
    };
    assert_eq!(all_keys(&page), vec!["a", "", "c"]);
    assert_eq!(row_key(&principal(None)), "");
}

#[test]
fn fetch_keeps_found_and_skips_missing() {
    let mut f = PrincipalFetch::new(vec!["a".into(), "b".into(), "c".into()]);
    assert_eq!(f.pending().as_deref(), Some("a"));
    assert!(f.record(Ok(principal(Some("a")))).is_ok());
    assert_eq!(f.pending().as_deref(), Some("b"));
    assert!(f.record(Err(HttpError::NotFound)).is_ok());
    assert_eq!(f.pending().as_deref(), Some("c"));
    assert!(f.record(Ok(principal(Some("c")))).is_ok());
    assert_eq!(f.pending(), None);
    let page = f.finish(17);
    assert_eq!(page.total, 17);
    let names: Vec<_> = page.items.iter().map(|p| p.name.clone().unwrap()).collect();
    assert_eq!(names, vec!["a", "c"]);
}

#[test]
fn fetch_stops_at_other_failures() {
    let mut f = PrincipalFetch::new(vec!["a".into(), "b".into()]);
    assert!(matches!(f.record(Err(HttpError::Unauthorized)), Err(HttpError::Unauthorized)));
    assert_eq!(f.pending().as_deref(), Some("a"));
}

#[test]
fn delete_run_stops_at_failure() {
    let mut d = DeleteRun::new(vec!["x".into(), "y".into(), "z".into()]);
    let r = d.pending_request().unwrap();
    assert_eq!((r.method, r.item.as_deref()), (Method::Delete, Some("x")));
    d.record(Ok(()));
    assert_eq!(d.pending_request().unwrap().item.as_deref(), Some("y"));
    d.record(Err(HttpError::Other("no".into())));
    assert!(d.pending_request().is_none());
    let report = d.report(PrincipalType::Individual);
    assert!(!report.refetch);
    assert!(matches!(report.alert, Alert::Error(HttpError::Other(ref m)) if m == "no"));
}

#[test]
fn delete_run_success_refetches() {
    let mut d = DeleteRun::new(vec!["x".into(), "y".into()]);
    while let Some(r) = d.pending_request() {
        assert_eq!(r.path, "/api/principal");
        d.record(Ok(()));
    }
    let report = d.report(PrincipalType::Group);
    assert!(report.refetch);
    assert!(matches!(report.alert, Alert::Success(ref m) if m == "Deleted 2 groups."));
}

#[test]
fn action_reports() {
    let r = delete_report(PrincipalType::List, 1, Ok(()));
    assert!(r.refetch);
    assert!(matches!(r.alert, Alert::Success(ref m) if m == "Deleted 1 list."));
    let r = purge_report("jane", Ok(()));
    assert!(!r.refetch);
    assert!(matches!(r.alert, Alert::Success(ref m) if m == "Account purge requested for jane."));
    let r = purge_report("jane", Err(HttpError::NotFound));
    assert!(!r.refetch);
    assert!(matches!(r.alert, Alert::Error(HttpError::NotFound)));
}

#[test]
fn page_load_lists_then_gathers() {
    let load = PageLoad::new(3, PrincipalType::Group, None);
    let r = load.pending_request().unwrap();
    assert_eq!((r.path.as_str(), r.item.as_deref()), ("/api/principal", None));
    assert_eq!(r.params[0].1, "3");
    let mut load = load.on_listing(Ok(NameList { names: vec!["a".into(), "b".into(), "c".into()], total: 9 }));
    let mut answers = vec![
        Ok(principal(Some("a"))),
        Err(HttpError::NotFound),
        Ok(principal(Some("c"))),
    ]
    .into_iter();
    let mut asked = vec![];
    while let Some(r) = load.pending_request() {
        asked.push(r.item.unwrap());
        load = load.on_principal(answers.next().unwrap());
    }
    assert_eq!(asked, vec!["a", "b", "c"]);
    let page = load.into_result().ok().unwrap();
    assert_eq!(page.total, 9);
    assert_eq!(page.items.len(), 2);
}

#[test]
fn page_load_failed_listing() {
    let load = PageLoad::new(1, PrincipalType::Individual, None).on_listing(Err(HttpError::Unauthorized));
    assert!(load.pending_request().is_none());
    assert!(matches!(load.into_result(), Err(HttpError::Unauthorized)));
}

#[test]
fn page_load_stops_at_failure() {
    let load = PageLoad::new(1, PrincipalType::List, None)
        .on_listing(Ok(NameList { names: vec!["a".into(), "b".into()], total: 2 }));
    let load = load.on_principal(Err(HttpError::Other("x".into())));
    assert!(load.pending_request().is_none());
    assert!(matches!(load.into_result(), Err(HttpError::Other(_))));
}

#[test]
fn selection_set_and_take() {
    let mut s = Selection::new();
    s.insert("a".into());
    s.insert("b".into());
    s.insert("a".into());
    assert_eq!(s.len(), 2);
    assert!(s.contains("a") && s.contains("b") && !s.contains("c"));
    s.remove("a");
    assert_eq!(s.len(), 1);
    assert!(!s.contains("a"));
    s.insert("c".into());
    let mut run = confirm_bulk_delete(&mut s);
    assert_eq!(s.len(), 0);
    assert_eq!(run.count(), 2);
    let mut names = vec![];
    while let Some(r) = run.pending_request() {
        names.push(r.item.unwrap());
        run.record(Ok(()));
    }
    names.sort();
    assert_eq!(names, vec!["b", "c"]);
    s.insert("z".into());
    s.clear();
    assert_eq!(s.len(), 0);
}

#[test]
fn row_delete_run() {
    let run = confirm_row_delete(&"jane".to_string());
    assert_eq!(run.count(), 1);
    assert_eq!(run.pending_request().unwrap().item.as_deref(), Some("jane"));
}

#[test]
fn usage_column() {
    assert_eq!(usage_label(Some(100), Some("5 kB".into()), 50), "5 kB (50%)");
    assert_eq!(usage_label(Some(0), Some("5 kB".into()), 50), "5 kB");
    assert_eq!(usage_label(None, Some("5 kB".into()), 0), "5 kB");
    assert_eq!(usage_label(Some(100), None, 0), "N/A");
    assert_eq!(usage_text(None, Some(1_000_000), 0), "1 MB");
    assert_eq!(usage_text(Some(2_000_000), Some(500), 0), "500 B (0%)");
    assert_eq!(usage_text(Some(10), Some(1500), 15), "1.50 kB (15%)");
    assert_eq!(usage_text(None, None, 0), "N/A");
}

#[test]
fn row_of_an_account() {
    let p = Principal {
        typ: None,
        quota: Some(1000),
        used_quota: Some(250),
        name: Some("jane".into()),
        description: Some("jane doe".into()),
        emails: vec!["jane@example.org".into(), "jd@example.org".into(), "j@example.org".into()],
        members: vec![],
        member_of: vec!["staff".into()],
    };
    let r = principal_row(&p, PrincipalType::Individual, 25);
    assert_eq!(r.name, "jane");
    assert_eq!(r.display_name, "jane doe");
    assert_eq!(r.display_letter, 'J');
    assert_eq!(r.principal_id, "jane");
    assert_eq!(r.manage_url, "/manage/directory/accounts/jane/edit");
    assert_eq!(r.undelete_url, "/manage/undelete/jane");
    assert_eq!(r.email, "jane@example.org");
    assert_eq!(r.aliases, "2 aliases");
    assert_eq!(r.badge_color, BadgeColor::Green);
    assert_eq!(r.type_label, "Individual");
    assert_eq!(r.usage.as_deref(), Some("250 B (25%)"));
    assert_eq!(r.members, None);
    assert_eq!(r.member_of.as_deref(), Some("1 group"));
}

#[test]
fn row_of_a_nameless_list() {
    let mut p = principal(None);
    p.typ = Some(PrincipalType::Superuser);
    p.members = vec!["a".into()];
    let r = principal_row(&p, PrincipalType::List, 0);
    assert_eq!(r.name, "unknown");
    assert_eq!(r.display_name, "");
    assert_eq!(r.display_letter, '\0');
    assert_eq!(r.principal_id, "");
    assert_eq!(r.email, "");
    assert_eq!(r.aliases, "0 aliases");
    assert_eq!(r.badge_color, BadgeColor::Yellow);
    assert_eq!(r.type_label, "Superuser");
    assert_eq!(r.usage, None);
    assert_eq!(r.members.as_deref(), Some("1 member"));
    assert_eq!(r.member_of, None);
}

#[test]
fn avatar_letter_is_uppercased() {
    let mut p = principal(Some("émile"));
    let r = principal_row(&p, PrincipalType::Group, 0);
    assert_eq!(r.display_letter, 'É');
    assert_eq!(r.members.as_deref(), Some("0 members"));
    assert_eq!(r.member_of.as_deref(), Some("0 groups"));
    p.description = Some("7 seas".into());
    assert_eq!(principal_row(&p, PrincipalType::Group, 0).display_letter, '7');
}

#[test]
fn badge_colours() {
    assert_eq!(badge_color(PrincipalType::Group), BadgeColor::Red);
    assert_eq!(badge_color(PrincipalType::List), BadgeColor::Blue);
    assert_eq!(badge_color(PrincipalType::Resource), BadgeColor::Red);
}

#[test]
fn row_delete_dialog() {
    let c = row_delete_confirmation("jane");
    assert_eq!(c.title, "Confirm deletion");
    assert_eq!(c.message, "Are you sure you want to delete this account? This action cannot be undone.");
    assert_eq!(c.button, "Delete jane");
}

#[test]
fn menu_toggles() {
    let a = "a".to_string();
    let b = "b".to_string();
    let mut open = String::new();
    toggle_menu(&mut open, &a);
    assert!(is_menu_open(&open, &a));
    assert!(!is_menu_open(&open, &b));
    toggle_menu(&mut open, &b);
    assert!(is_menu_open(&open, &b));
    assert!(!is_menu_open(&open, &a));
    toggle_menu(&mut open, &b);
    assert_eq!(open, "");
    toggle_menu(&mut open, &a);
    close_menu(&mut open);
    assert!(!is_menu_open(&open, &a));
}

#[test]
fn zoe_row() {
    let mut p = principal(None);
    p.description = Some("zoe".into());
    let r = principal_row(&p, PrincipalType::Individual, 0);
    assert_eq!(r.name, "unknown");
    assert_eq!(r.display_letter, 'Z');
    assert_eq!(r.manage_url, "/manage/directory/accounts//edit");
    assert_eq!(r.undelete_url, "/manage/undelete/");
}

#[test]
fn kind_change_clears_selection() {
    let mut s = Selection::new();
    s.insert("a".into());
    assert_eq!(select_kind(Some("groups"), &mut s), PrincipalType::Group);
    assert_eq!(s.len(), 0);
    s.insert("b".into());
    assert_eq!(select_kind(None, &mut s), PrincipalType::Individual);
    assert!(!s.contains("b"));
}
