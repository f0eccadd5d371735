//! What the page reads from its route and query string, and the links and
//! requests it builds from them.

use vstd::prelude::*;
use vstd::string::*;
use crate::principal::{PrincipalType, is_listed, type_id, resource_segment};
use crate::text::{decimal, decimal_text};

verus! {

/// How many principals one page of the listing shows.
pub const PAGE_SIZE: u32 = 10;

/// Whether a character is an ASCII decimal digit.
pub open spec fn is_digit(c: char) -> bool {
    '0' <= c && c <= '9'
}

/// The value of a run of decimal digits (zero for none).
pub open spec fn digits_value(d: Seq<char>) -> nat
    decreases d.len(),
{
    if d.len() == 0 {
        0
    } else {
        digits_value(d.drop_last()) * 10 + ((d.last() as nat) - ('0' as nat)) as nat
    }
}

/// The text after an optional leading `+`.
pub open spec fn unsigned_digits(s: Seq<char>) -> Seq<char> {
    if s.len() > 0 && s[0] == '+' {
        s.drop_first()
    } else {
        s
    }
}

/// What `str::parse::<u32>` gives: an optional `+` followed by one or more
/// decimal digits whose value fits in a `u32`; nothing else is a number.
pub open spec fn parse_u32_spec(s: Seq<char>) -> Option<u32> {
    let d = unsigned_digits(s);
    if d.len() > 0 && (forall|i: int| 0 <= i < d.len() ==> is_digit(#[trigger] d[i]))
        && digits_value(d) <= u32::MAX {
        Some(digits_value(d) as u32)
    } else {
        None
    }
}

fn digit_value(c: char) -> (v: u64)
    requires
        is_digit(c),
    ensures
        v == (c as nat) - ('0' as nat),
        v < 10,
{
    (c as u32 - '0' as u32) as u64
}

/// Reads a decimal `u32` the way `str::parse::<u32>` does.
pub fn parse_u32(s: &str) -> (r: Option<u32>)
    ensures
        r == parse_u32_spec(s@),
{
    let n = s.unicode_len();
    let start: usize = if n > 0 && s.get_char(0) == '+' { 1 } else { 0 };
    let ghost d = unsigned_digits(s@);
    assert(d =~= s@.subrange(start as int, n as int));
    if start >= n {
        return None;
    }
    let mut acc: u64 = 0;
    let mut overflow = false;
    let mut i: usize = start;
    while i < n
        invariant
            n == s@.len(),
            start <= i <= n,
            d == s@.subrange(start as int, n as int),
            d == unsigned_digits(s@),
            forall|j: int| 0 <= j < i - start ==> is_digit(#[trigger] d[j]),
            !overflow ==> acc == digits_value(d.subrange(0, i - start)),
            !overflow ==> acc <= u32::MAX,
            overflow ==> digits_value(d.subrange(0, i - start)) > u32::MAX,
        decreases n - i,
    {
        let c = s.get_char(i);
        if !('0' <= c && c <= '9') {
            assert(!is_digit(d[i - start]));
            return None;
        }
        let v = digit_value(c);
        let ghost prefix = d.subrange(0, i - start);
        assert(d.subrange(0, i + 1 - start).drop_last() =~= prefix);
        assert(d.subrange(0, i + 1 - start).last() == c);
        if !overflow {
            acc = acc * 10 + v;
            if acc > 0xffff_ffff {
                overflow = true;
            }
        }
        i = i + 1;
    }
    assert(d.subrange(0, n - start) =~= d);
    if overflow {
        None
    } else {
        Some(acc as u32)
    }
}

/// The decimal text of a number consists of digits alone.
proof fn lemma_decimal_text_digits(n: nat)
    ensures
        decimal_text(n).len() > 0,
        forall|i: int| 0 <= i < decimal_text(n).len() ==> is_digit(#[trigger] decimal_text(n)[i]),
        digits_value(decimal_text(n)) == n,
    decreases n,
{
    let t = decimal_text(n);
    if n >= 10 {
        lemma_decimal_text_digits(n / 10);
        assert(t.drop_last() =~= decimal_text(n / 10));
        assert(t.last() as nat == ('0' as nat) + n % 10);
        assert((n / 10) * 10 + n % 10 == n);
        assert(digits_value(t) == digits_value(t.drop_last()) * 10 + ((t.last() as nat) - ('0' as nat)) as nat);
        assert(digits_value(t) == (n / 10) * 10 + n % 10);
        assert forall|i: int| 0 <= i < t.len() implies is_digit(#[trigger] t[i]) by {
            if i < t.len() - 1 {
                assert(t[i] == decimal_text(n / 10)[i]);
            }
        }
    } else {
        assert(t.drop_last() =~= Seq::<char>::empty());
        assert(t.last() as nat == ('0' as nat) + n);
        assert(digits_value(t) == digits_value(t.drop_last()) * 10 + ((t.last() as nat) - ('0' as nat)) as nat);
        assert(digits_value(t.drop_last()) == 0);
    }
}

/// Law: reading back the decimal text of a number gives the number.
pub proof fn law_parse_decimal_round_trip(n: u32)
    ensures
        parse_u32_spec(decimal_text(n as nat)) == Some(n),
{
    lemma_decimal_text_digits(n as nat);
    assert(decimal_text(n as nat)[0] != '+');
    assert(unsigned_digits(decimal_text(n as nat)) == decimal_text(n as nat));
}


/// Whether two strings hold the same characters.
pub fn same_text(a: &str, b: &str) -> (r: bool)
    ensures
        r == (a@ == b@),
{
    let n = a.unicode_len();
    if n != b.unicode_len() {
        return false;
    }
    let mut i: usize = 0;
    while i < n
        invariant
            n == a@.len(),
            n == b@.len(),
            i <= n,
            forall|j: int| 0 <= j < i ==> a@[j] == b@[j],
        decreases n - i,
    {
        if a.get_char(i) != b.get_char(i) {
            return false;
        }
        i = i + 1;
    }
    assert(a@ =~= b@);
    true
}

/// The kind of principal a route segment names; anything else lists accounts.
pub open spec fn route_type(object: Option<Seq<char>>) -> PrincipalType {
    match object {
        Some(o) => if o == "groups"@ {
            PrincipalType::Group
        } else if o == "lists"@ {
            PrincipalType::List
        } else {
            PrincipalType::Individual
        },
        None => PrincipalType::Individual,
    }
}

/// The kind of principal the page lists, read from the `object` route parameter.
pub fn selected_type(object: Option<&str>) -> (t: PrincipalType)
    ensures
        t == route_type(match object { Some(o) => Some(o@), None => None }),
        is_listed(t),
{
    proof {
        reveal_strlit("accounts");
        reveal_strlit("groups");
        reveal_strlit("lists");
        assert("accounts"@.len() == 8);
        assert("groups"@.len() == 6);
        assert("lists"@.len() == 5);
    }
    match object {
        Some(o) => {
            if same_text(o, "accounts") {
                PrincipalType::Individual
            } else if same_text(o, "groups") {
                PrincipalType::Group
            } else if same_text(o, "lists") {
                PrincipalType::List
            } else {
                PrincipalType::Individual
            }
        },
        None => PrincipalType::Individual,
    }
}

/// Law: the page that lists a kind of principal selects that kind again.
pub proof fn law_route_round_trip(t: PrincipalType)
    requires
        is_listed(t),
    ensures
        route_type(Some(resource_segment(t))) == t,
{
    reveal_strlit("accounts");
    reveal_strlit("groups");
    reveal_strlit("lists");
    assert("accounts"@.len() == 8);
    assert("groups"@.len() == 6);
    assert("lists"@.len() == 5);
    assert("accounts"@ != "groups"@);
}

/// The page number a `page` query value asks for: a positive number, else the first page.
pub open spec fn page_number(param: Option<Seq<char>>) -> u32 {
    match param {
        Some(p) => match parse_u32_spec(p) {
            Some(n) => if n > 0 { n } else { 1 },
            None => 1,
        },
        None => 1,
    }
}

/// Law: the `page` parameter of a page link reads back as that page.
pub proof fn law_page_link_round_trip(page: u32)
    requires
        page >= 1,
    ensures
        page_number(Some(decimal_text(page as nat))) == page,
{
    law_parse_decimal_round_trip(page);
}

/// The page the listing shows, read from the `page` query parameter.
pub fn current_page(param: Option<&str>) -> (page: u32)
    ensures
        page == page_number(match param { Some(p) => Some(p@), None => None }),
        page >= 1,
{
    match param {
        Some(p) => match parse_u32(p) {
            Some(n) => if n > 0 { n } else { 1 },
            None => 1,
        },
        None => 1,
    }
}

/// Whether a character has Unicode's `White_Space` property.
pub open spec fn is_white_space(c: char) -> bool {
    let n = c as nat;
    (0x09 <= n && n <= 0x0D) || n == 0x20 || n == 0x85 || n == 0xA0 || n == 0x1680
        || (0x2000 <= n && n <= 0x200A) || n == 0x2028 || n == 0x2029 || n == 0x202F
        || n == 0x205F || n == 0x3000
}

/// A string without the whitespace at its start.
pub open spec fn trim_start(s: Seq<char>) -> Seq<char>
    decreases s.len(),
{
    if s.len() > 0 && is_white_space(s[0]) {
        trim_start(s.drop_first())
    } else {
        s
    }
}

/// A string without the whitespace at its end.
pub open spec fn trim_end(s: Seq<char>) -> Seq<char>
    decreases s.len(),
{
    if s.len() > 0 && is_white_space(s.last()) {
        trim_end(s.drop_last())
    } else {
        s
    }
}

/// A string without the whitespace at its start and at its end.
pub open spec fn trimmed(s: Seq<char>) -> Seq<char> {
    trim_end(trim_start(s))
}

fn white_space(c: char) -> (b: bool)
    ensures
        b == is_white_space(c),
{
    let n = c as u32;
    (0x09 <= n && n <= 0x0D) || n == 0x20 || n == 0x85 || n == 0xA0 || n == 0x1680
        || (0x2000 <= n && n <= 0x200A) || n == 0x2028 || n == 0x2029 || n == 0x202F
        || n == 0x205F || n == 0x3000
}

/// The string without the characters of Unicode's `White_Space` property at
/// its start and at its end, as `str::trim` leaves it.
pub fn trim<'a>(s: &'a str) -> (r: &'a str)
    ensures
        r@ == trimmed(s@),
{
    let n = s.unicode_len();
    let mut i: usize = 0;
    assert(s@.subrange(0, n as int) =~= s@);
    while i < n && white_space(s.get_char(i))
        invariant
            n == s@.len(),
            i <= n,
            trim_start(s@) == trim_start(s@.subrange(i as int, n as int)),
        decreases n - i,
    {
        let ghost t = s@.subrange(i as int, n as int);
        assert(t.drop_first() =~= s@.subrange(i + 1, n as int));
        i = i + 1;
    }
    assert(trim_start(s@.subrange(i as int, n as int)) == s@.subrange(i as int, n as int));
    let mut j: usize = n;
    while j > i && white_space(s.get_char(j - 1))
        invariant
            n == s@.len(),
            i <= j <= n,
            trim_end(s@.subrange(i as int, n as int)) == trim_end(s@.subrange(i as int, j as int)),
        decreases j,
    {
        let ghost v = s@.subrange(i as int, j as int);
        assert(v.drop_last() =~= s@.subrange(i as int, j - 1));
        j = j - 1;
    }
    assert(trim_end(s@.subrange(i as int, j as int)) == s@.subrange(i as int, j as int));
    s.substring_char(i, j)
}

fn filter_from_trimmed(t: &str) -> (f: Option<String>)
    ensures
        match f {
            Some(s) => s@ == t@ && t@.len() > 0,
            None => t@.len() == 0,
        },
{
    if t.is_empty() {
        None
    } else {
        Some(t.to_owned())
    }
}

/// The search filter of the listing, read from the `filter` query parameter:
/// the trimmed value, or none where nothing but whitespace is left.
pub fn current_filter(param: Option<&str>) -> (f: Option<String>)
    ensures
        match param {
            None => f is None,
            Some(p) => match f {
                Some(s) => s@ == trimmed(p@) && trimmed(p@).len() > 0,
                None => trimmed(p@).len() == 0,
            },
        },
{
    match param {
        Some(p) => filter_from_trimmed(trim(p)),
        None => None,
    }
}

/// A path with its query parameters, in order, before any encoding.
pub struct Link {
    pub path: String,
    pub params: Vec<(String, String)>,
}

/// The text of query parameters.
pub open spec fn params_view(p: Seq<(String, String)>) -> Seq<(Seq<char>, Seq<char>)> {
    p.map_values(|kv: (String, String)| (kv.0@, kv.1@))
}

/// A link as text: its path and its parameters.
pub open spec fn link_view(l: Link) -> (Seq<char>, Seq<(Seq<char>, Seq<char>)>) {
    (l.path@, params_view(l.params@))
}

/// The optional `filter` parameter.
pub open spec fn filter_param(filter: Option<String>) -> Seq<(Seq<char>, Seq<char>)> {
    match filter {
        Some(f) => seq![("filter"@, f@)],
        None => Seq::empty(),
    }
}

fn param(key: &str, value: String) -> (kv: (String, String))
    ensures
        kv.0@ == key@,
        kv.1@ == value@,
{
    (key.to_owned(), value)
}

fn push_param(params: &mut Vec<(String, String)>, key: &str, value: String)
    ensures
        params_view(final(params)@) == params_view(old(params)@).push((key@, value@)),
{
    let kv = param(key, value);
    params.push(kv);
    assert(params_view(params@) =~= params_view(old(params)@).push((key@, value@)));
}

fn push_filter(params: &mut Vec<(String, String)>, filter: Option<String>)
    ensures
        params_view(final(params)@) == params_view(old(params)@) + filter_param(filter),
{
    match filter {
        Some(f) => push_param(params, "filter", f),
        None => {
            assert(params_view(params@) =~= params_view(params@) + Seq::<(Seq<char>, Seq<char>)>::empty());
        },
    }
}

/// The method of a server request.
#[derive(Clone, Copy, Debug, PartialEq, Eq, Structural)]
pub enum Method {
    Get,
    Delete,
}

/// A request to the management API: its method, its path, the item the
/// path names after it (an extra segment, encoded by the transport), and its
/// query parameters, in order.
pub struct ApiRequest {
    pub method: Method,
    pub path: String,
    pub item: Option<String>,
    pub params: Vec<(String, String)>,
}

/// A server request as text.
pub ghost struct RequestView {
    pub method: Method,
    pub path: Seq<char>,
    pub item: Option<Seq<char>>,
    pub params: Seq<(Seq<char>, Seq<char>)>,
}

/// A server request as text.
pub open spec fn request_view(r: ApiRequest) -> RequestView {
    RequestView {
        method: r.method,
        path: r.path@,
        item: match r.item { Some(i) => Some(i@), None => None },
        params: params_view(r.params@),
    }
}

/// The request for one page of principals of a kind, with the search filter.
pub open spec fn list_request_spec(page: u32, t: PrincipalType, filter: Option<String>) -> RequestView {
    RequestView {
        method: Method::Get,
        path: "/api/principal"@,
        item: None,
        params: seq![
            ("page"@, decimal_text(page as nat)),
            ("limit"@, decimal_text(PAGE_SIZE as nat)),
            ("type"@, type_id(t)),
        ] + filter_param(filter),
    }
}

/// The server request that lists the names on one page of principals.
pub fn list_request(page: u32, t: PrincipalType, filter: Option<String>) -> (r: ApiRequest)
    ensures
        request_view(r) == list_request_spec(page, t, filter),
{
    let mut params: Vec<(String, String)> = Vec::new();
    push_param(&mut params, "page", decimal(page as u64));
    push_param(&mut params, "limit", decimal(PAGE_SIZE as u64));
    push_param(&mut params, "type", t.id().to_owned());
    push_filter(&mut params, filter);
    let r = ApiRequest { method: Method::Get, path: "/api/principal".to_owned(), item: None, params };
    assert(request_view(r).params =~= list_request_spec(page, t, filter).params);
    r
}

/// Law: the listing request is a GET of `/api/principal` naming no item, whose
/// parameters are the page, the page size of ten, the server's identifier of
/// the kind, and the filter where there is one.
pub proof fn law_list_request(page: u32, t: PrincipalType, filter: Option<String>)
    ensures
        list_request_spec(page, t, filter).method == Method::Get,
        list_request_spec(page, t, filter).path == "/api/principal"@,
        list_request_spec(page, t, filter).item is None,
        list_request_spec(page, t, filter).params.len() == if filter is Some { 4int } else { 3int },
        list_request_spec(page, t, filter).params[0] == ("page"@, decimal_text(page as nat)),
        list_request_spec(page, t, filter).params[1] == ("limit"@, decimal_text(10)),
        list_request_spec(page, t, filter).params[2] == ("type"@, type_id(t)),
        filter matches Some(f) ==> list_request_spec(page, t, filter).params[3] == ("filter"@, f@),
{
}

/// A request without query parameters for an item under a path.
pub open spec fn item_request_spec(method: Method, path: Seq<char>, item: Seq<char>) -> RequestView {
    RequestView { method, path, item: Some(item), params: Seq::empty() }
}

fn item_request(method: Method, path: &str, item: &str) -> (r: ApiRequest)
    ensures
        request_view(r) == item_request_spec(method, path@, item@),
{
    let r = ApiRequest { method, path: path.to_owned(), item: Some(item.to_owned()), params: Vec::new() };
    assert(request_view(r).params =~= Seq::<(Seq<char>, Seq<char>)>::empty());
    r
}

/// The request that fetches one principal by name.
pub fn principal_request(name: &str) -> (r: ApiRequest)
    ensures
        request_view(r) == item_request_spec(Method::Get, "/api/principal"@, name@),
{
    item_request(Method::Get, "/api/principal", name)
}

/// The request that deletes one principal by name.
pub fn delete_request(name: &str) -> (r: ApiRequest)
    ensures
        request_view(r) == item_request_spec(Method::Delete, "/api/principal"@, name@),
{
    item_request(Method::Delete, "/api/principal", name)
}

/// The request that purges the deleted mail of an account.
pub fn purge_request(account: &str) -> (r: ApiRequest)
    ensures
        request_view(r) == item_request_spec(Method::Get, "/api/store/purge/account"@, account@),
{
    item_request(Method::Get, "/api/store/purge/account", account)
}

/// The path of the page that lists a kind of principal.
pub open spec fn directory_path(t: PrincipalType) -> Seq<char> {
    "/manage/directory/"@ + resource_segment(t)
}

fn directory(t: PrincipalType) -> (s: String)
    requires
        is_listed(t),
    ensures
        s@ == directory_path(t),
{
    let mut s = "/manage/directory/".to_owned();
    s.append(t.resource_name());
    s
}

/// Where a search goes: the listing of the same kind, filtered by the value.
pub fn search_link(t: PrincipalType, value: String) -> (l: Link)
    requires
        is_listed(t),
    ensures
        link_view(l) == (directory_path(t), seq![("filter"@, value@)]),
{
    let mut params: Vec<(String, String)> = Vec::new();
    push_param(&mut params, "filter", value);
    let l = Link { path: directory(t), params };
    assert(link_view(l).1 =~= seq![("filter"@, value@)]);
    l
}

/// Where a page change goes: the same listing and filter at another page.
pub fn page_link(t: PrincipalType, page: u32, filter: Option<String>) -> (l: Link)
    requires
        is_listed(t),
    ensures
        link_view(l) == (directory_path(t), seq![("page"@, decimal_text(page as nat))] + filter_param(filter)),
{
    let mut params: Vec<(String, String)> = Vec::new();
    push_param(&mut params, "page", decimal(page as u64));
    push_filter(&mut params, filter);
    let l = Link { path: directory(t), params };
    assert(link_view(l).1 =~= seq![("page"@, decimal_text(page as nat))] + filter_param(filter));
    l
}

/// The path of the form that creates a principal of a kind.
pub fn create_path(t: PrincipalType) -> (s: String)
    requires
        is_listed(t),
    ensures
        s@ == directory_path(t) + "/edit"@,
{
    let mut s = directory(t);
    s.append("/edit");
    s
}

} // verus!
