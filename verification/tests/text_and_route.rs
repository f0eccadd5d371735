use webadmin::principal::PrincipalType;
use webadmin::route::{
    create_path, current_filter, current_page, delete_request, list_request, page_link, parse_u32,
    principal_request, purge_request, same_text, trim, search_link, selected_type, ApiRequest, Link,
    Method, PAGE_SIZE,
};
use webadmin::text::{decimal, maybe_plural};

fn pairs(l: &Link) -> Vec<(&str, &str)> {
    l.params.iter().map(|(k, v)| (k.as_str(), v.as_str())).collect()
}

fn request_pairs(r: &ApiRequest) -> Vec<(&str, &str)> {
    r.params.iter().map(|(k, v)| (k.as_str(), v.as_str())).collect()
}

#[test]
fn decimal_writes_digits() {
    assert_eq!(decimal(0), "0");
    assert_eq!(decimal(7), "7");
    assert_eq!(decimal(10), "10");
    assert_eq!(decimal(1234567890), "1234567890");
    assert_eq!(decimal(u64::MAX), u64::MAX.to_string());
}

#[test]
fn maybe_plural_picks_the_noun() {
    assert_eq!(maybe_plural(0, "account", "accounts"), "0 accounts");
    assert_eq!(maybe_plural(1, "account", "accounts"), "1 account");
    assert_eq!(maybe_plural(2, "alias", "aliases"), "2 aliases");
}

#[test]
fn parse_u32_follows_std() {
    for s in ["0", "1", "+7", "42", "4294967295", "4294967296", "", "+", "-1", " 3", "3 ", "1_0", "abc", "007", "99999999999999999999"] {
        assert_eq!(parse_u32(s), s.parse::<u32>().ok(), "input {s:?}");
    }
}

#[test]
fn parse_reads_back_decimal() {
    for n in [0u32, 1, 9, 10, 99, 100, 65535, u32::MAX] {
        assert_eq!(parse_u32(&decimal(n as u64)), Some(n));
    }
}

#[test]
fn same_text_compares_characters() {
    assert!(same_text("groups", "groups"));
    assert!(!same_text("groups", "group"));
    assert!(!same_text("Groups", "groups"));
    assert!(same_text("", ""));
}

#[test]
fn route_selects_the_kind() {
    assert_eq!(selected_type(Some("accounts")), PrincipalType::Individual);
    assert_eq!(selected_type(Some("groups")), PrincipalType::Group);
    assert_eq!(selected_type(Some("lists")), PrincipalType::List);
    assert_eq!(selected_type(Some("domains")), PrincipalType::Individual);
    assert_eq!(selected_type(None), PrincipalType::Individual);
}

#[test]
fn route_round_trip() {
    for t in [PrincipalType::Individual, PrincipalType::Group, PrincipalType::List] {
        assert_eq!(selected_type(Some(t.resource_name())), t);
    }
}

#[test]
fn page_defaults_to_one() {
    assert_eq!(current_page(None), 1);
    assert_eq!(current_page(Some("3")), 3);
    assert_eq!(current_page(Some("0")), 1);
    assert_eq!(current_page(Some("x")), 1);
    assert_eq!(current_page(Some("-2")), 1);
    assert_eq!(current_page(Some("+5")), 5);
}

#[test]
fn filter_is_trimmed() {
    assert_eq!(current_filter(None), None);
    assert_eq!(current_filter(Some("")), None);
    assert_eq!(current_filter(Some("   ")), None);
    assert_eq!(current_filter(Some("  bob ")), Some("bob".to_string()));
    assert_eq!(current_filter(Some("\u{3000}ann lee\t")), Some("ann lee".to_string()));
}

#[test]
fn list_request_parameters() {
    let l = list_request(2, PrincipalType::Group, Some("sales".to_string()));
    assert_eq!(l.method, Method::Get);
    assert_eq!(l.path, "/api/principal");
    assert_eq!(l.item, None);
    assert_eq!(
        request_pairs(&l),
        vec![("page", "2"), ("limit", "10"), ("type", "group"), ("filter", "sales")]
    );
    let l = list_request(1, PrincipalType::Individual, None);
    assert_eq!(request_pairs(&l), vec![("page", "1"), ("limit", "10"), ("type", "individual")]);
    assert_eq!(PAGE_SIZE, 10);
}

#[test]
fn navigation_links() {
    let l = search_link(PrincipalType::List, "news".to_string());
    assert_eq!(l.path, "/manage/directory/lists");
    assert_eq!(pairs(&l), vec![("filter", "news")]);
    let l = page_link(PrincipalType::Individual, 4, Some("a".to_string()));
    assert_eq!(l.path, "/manage/directory/accounts");
    assert_eq!(pairs(&l), vec![("page", "4"), ("filter", "a")]);
    let l = page_link(PrincipalType::Group, 1, None);
    assert_eq!(pairs(&l), vec![("page", "1")]);
    assert_eq!(create_path(PrincipalType::Group), "/manage/directory/groups/edit");
}

#[test]
fn page_link_reads_back() {
    for n in [1u32, 2, 10, 123, u32::MAX] {
        let l = page_link(PrincipalType::Group, n, None);
        let (_, value) = &l.params[0];
        assert_eq!(current_page(Some(value)), n);
    }
}

#[test]
fn item_requests() {
    let r = principal_request("jane");
    assert_eq!((r.method, r.path.as_str(), r.item.as_deref()), (Method::Get, "/api/principal", Some("jane")));
    assert!(r.params.is_empty());
    let r = delete_request("jane");
    assert_eq!((r.method, r.path.as_str(), r.item.as_deref()), (Method::Delete, "/api/principal", Some("jane")));
    let r = purge_request("jane");
    assert_eq!(
        (r.method, r.path.as_str(), r.item.as_deref()),
        (Method::Get, "/api/store/purge/account", Some("jane"))
    );
}

#[test]
fn trim_matches_std() {
    for s in ["", " ", "a", "  bob ", "\u{3000}ann lee\t", "\u{85}x\u{2028}", "\u{200B}y", "a b", "\n\r\t"] {
        assert_eq!(trim(s), s.trim(), "input {s:?}");
    }
}
