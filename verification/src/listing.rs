//! The text and the state of the listing around its rows: title, column
//! headers, toolbar buttons, confirmations, and what the result area shows.

use vstd::prelude::*;
use crate::principal::{HttpError, Principal, PrincipalPage, PrincipalType, is_listed, item_noun, principal_key};
use crate::text::{counted, decimal, decimal_text, maybe_plural};

verus! {

/// The title of the listing of a kind of principal.
pub open spec fn title_text(t: PrincipalType) -> Seq<char> {
    match t {
        PrincipalType::Individual => "Accounts"@,
        PrincipalType::Group => "Groups"@,
        _ => "Mailing Lists"@,
    }
}

/// The subtitle of the listing of a kind of principal.
pub open spec fn subtitle_text(t: PrincipalType) -> Seq<char> {
    match t {
        PrincipalType::Individual => "Manage user accounts"@,
        PrincipalType::Group => "Manage groups"@,
        _ => "Manage mailing lists"@,
    }
}

/// Law: the title and subtitle of each listing.
pub proof fn law_titles()
    ensures
        title_text(PrincipalType::Individual) == "Accounts"@,
        title_text(PrincipalType::Group) == "Groups"@,
        title_text(PrincipalType::List) == "Mailing Lists"@,
        subtitle_text(PrincipalType::Individual) == "Manage user accounts"@,
        subtitle_text(PrincipalType::Group) == "Manage groups"@,
        subtitle_text(PrincipalType::List) == "Manage mailing lists"@,
{
}

/// The title of the listing.
pub fn title(t: PrincipalType) -> (s: String)
    requires
        is_listed(t),
    ensures
        s@ == title_text(t),
{
    match t {
        PrincipalType::Individual => "Accounts".to_owned(),
        PrincipalType::Group => "Groups".to_owned(),
        _ => "Mailing Lists".to_owned(),
    }
}

/// The subtitle of the listing.
pub fn subtitle(t: PrincipalType) -> (s: String)
    requires
        is_listed(t),
    ensures
        s@ == subtitle_text(t),
{
    match t {
        PrincipalType::Individual => "Manage user accounts".to_owned(),
        PrincipalType::Group => "Manage groups".to_owned(),
        _ => "Manage mailing lists".to_owned(),
    }
}

/// The column headers of the listing of a kind of principal.
pub open spec fn header_texts(t: PrincipalType) -> Seq<Seq<char>> {
    match t {
        PrincipalType::Individual => seq!["Name"@, "E-mail"@, "Type"@, "Usage"@, "Member of"@, ""@],
        PrincipalType::Group => seq!["Name"@, "E-mail"@, "Type"@, "Members"@, "Member of"@, ""@],
        _ => seq!["Name"@, "E-mail"@, "Type"@, "Members"@, ""@],
    }
}

/// The text of a list of strings.
pub open spec fn texts(v: Seq<String>) -> Seq<Seq<char>> {
    v.map_values(|s: String| s@)
}

fn push_text(v: &mut Vec<String>, s: &str)
    ensures
        texts(final(v)@) == texts(old(v)@).push(s@),
{
    v.push(s.to_owned());
    assert(texts(v@) =~= texts(old(v)@).push(s@));
}

/// The column headers of the listing.
pub fn headers(t: PrincipalType) -> (h: Vec<String>)
    requires
        is_listed(t),
    ensures
        texts(h@) == header_texts(t),
{
    let mut h: Vec<String> = Vec::new();
    push_text(&mut h, "Name");
    push_text(&mut h, "E-mail");
    push_text(&mut h, "Type");
    match t {
        PrincipalType::Individual => {
            push_text(&mut h, "Usage");
            push_text(&mut h, "Member of");
        },
        PrincipalType::Group => {
            push_text(&mut h, "Members");
            push_text(&mut h, "Member of");
        },
        _ => {
            push_text(&mut h, "Members");
        },
    }
    push_text(&mut h, "");
    assert(texts(h@) =~= header_texts(t));
    h
}

/// The label of the toolbar's delete button: the number of selected rows, if any.
pub open spec fn delete_label_text(selected: nat) -> Seq<char> {
    if selected > 0 {
        "Delete ("@ + decimal_text(selected) + ")"@
    } else {
        "Delete"@
    }
}

/// Law: the delete button shows the number of selected rows in brackets
/// whenever any is selected, and only "Delete" when none is.
pub proof fn law_delete_label(n: nat)
    ensures
        n == 0 ==> delete_label_text(n) == "Delete"@,
        n > 0 ==> delete_label_text(n) == "Delete ("@ + decimal_text(n) + ")"@,
        n > 0 ==> delete_label_text(n) != delete_label_text(0),
{
    reveal_strlit("Delete");
    reveal_strlit("Delete (");
    reveal_strlit(")");
    if n > 0 {
        assert(delete_label_text(n).len() > 6);
    }
}

/// The label of the toolbar's delete button.
pub fn delete_button_label(selected: usize) -> (s: String)
    ensures
        s@ == delete_label_text(selected as nat),
{
    if selected > 0 {
        let mut s = "Delete (".to_owned();
        s.append(decimal(selected as u64).as_str());
        s.append(")");
        s
    } else {
        "Delete".to_owned()
    }
}

/// A confirmation dialog: its title, its message and the label of its button.
pub struct Confirmation {
    pub title: String,
    pub message: String,
    pub button: String,
}

/// A confirmation dialog as text.
pub open spec fn confirmation_view(c: Confirmation) -> (Seq<char>, Seq<char>, Seq<char>) {
    (c.title@, c.message@, c.button@)
}

/// How many principals of a kind are meant, as the dialogs and messages say it.
pub open spec fn items_text(t: PrincipalType, count: nat) -> Seq<char> {
    counted(count, item_noun(t, false), item_noun(t, true))
}

/// The dialog that asks before the selected principals are deleted.
pub open spec fn bulk_delete_dialog(t: PrincipalType, count: nat) -> (Seq<char>, Seq<char>, Seq<char>) {
    ("Confirm deletion"@,
     "Are you sure you want to delete "@ + items_text(t, count) + "? This action cannot be undone."@,
     "Delete "@ + items_text(t, count))
}

/// The dialog the delete button opens: none when no row is selected.
pub fn bulk_delete_confirmation(t: PrincipalType, selected: usize) -> (c: Option<Confirmation>)
    requires
        is_listed(t),
    ensures
        match c {
            Some(c) => selected > 0 && confirmation_view(c) == bulk_delete_dialog(t, selected as nat),
            None => selected == 0,
        },
{
    if selected == 0 {
        return None;
    }
    let text = maybe_plural(selected, t.item_name(false), t.item_name(true));
    let mut message = "Are you sure you want to delete ".to_owned();
    message.append(text.as_str());
    message.append("? This action cannot be undone.");
    let mut button = "Delete ".to_owned();
    button.append(text.as_str());
    Some(Confirmation { title: "Confirm deletion".to_owned(), message, button })
}

/// The label of the toolbar's create button.
pub fn create_button_label(t: PrincipalType) -> (s: String)
    requires
        is_listed(t),
    ensures
        s@ == "Create "@ + item_noun(t, false),
{
    let mut s = "Create ".to_owned();
    s.append(t.item_name(false));
    s
}

/// The label of the button shown where a search finds nothing.
pub fn create_new_label(t: PrincipalType) -> (s: String)
    requires
        is_listed(t),
    ensures
        s@ == "Create a new "@ + item_noun(t, false),
{
    let mut s = "Create a new ".to_owned();
    s.append(t.item_name(false));
    s
}

/// The message shown once the selected principals are deleted.
pub fn deleted_message(t: PrincipalType, count: usize) -> (s: String)
    requires
        is_listed(t),
    ensures
        s@ == "Deleted "@ + items_text(t, count as nat) + "."@,
{
    let mut s = "Deleted ".to_owned();
    let text = maybe_plural(count, t.item_name(false), t.item_name(true));
    s.append(text.as_str());
    s.append(".");
    s
}

/// The message shown once a purge of an account's deleted mail is requested.
pub fn purge_requested_message(account: &str) -> (s: String)
    ensures
        s@ == "Account purge requested for "@ + account@ + "."@,
{
    let mut s = "Account purge requested for ".to_owned();
    s.append(account);
    s.append(".");
    s
}

/// An alert shown at the top of the page.
pub enum Alert {
    /// A success message.
    Success(String),
    /// A failed request, shown from its error.
    Error(HttpError),
}

/// An alert as text.
pub ghost enum AlertView {
    Success(Seq<char>),
    Error(HttpError),
}

/// What an action leaves the page with once its requests are answered:
/// whether the listing is fetched again, and the alert shown.
pub struct ActionReport {
    pub refetch: bool,
    pub alert: Alert,
}

/// An action report as text.
pub open spec fn report_view(r: ActionReport) -> (bool, AlertView) {
    (r.refetch, match r.alert {
        Alert::Success(s) => AlertView::Success(s@),
        Alert::Error(e) => AlertView::Error(e),
    })
}

/// After a deletion of `count` principals of a kind: on success the listing is
/// fetched again and the deletion announced; on failure the error is shown and
/// the listing left as it is.
pub open spec fn delete_report_spec(t: PrincipalType, count: nat, outcome: Result<(), HttpError>) -> (bool, AlertView) {
    match outcome {
        Ok(()) => (true, AlertView::Success("Deleted "@ + items_text(t, count) + "."@)),
        Err(e) => (false, AlertView::Error(e)),
    }
}

/// What the page does once a deletion of `count` principals has ended.
pub fn delete_report(t: PrincipalType, count: usize, outcome: Result<(), HttpError>) -> (r: ActionReport)
    requires
        is_listed(t),
    ensures
        report_view(r) == delete_report_spec(t, count as nat, outcome),
{
    match outcome {
        Ok(()) => ActionReport { refetch: true, alert: Alert::Success(deleted_message(t, count)) },
        Err(e) => ActionReport { refetch: false, alert: Alert::Error(e) },
    }
}

/// After a purge request for an account: the request is announced, or its
/// error shown; the listing is not fetched again either way.
pub open spec fn purge_report_spec(account: Seq<char>, outcome: Result<(), HttpError>) -> (bool, AlertView) {
    match outcome {
        Ok(()) => (false, AlertView::Success("Account purge requested for "@ + account + "."@)),
        Err(e) => (false, AlertView::Error(e)),
    }
}

/// What the page does once the purge request for an account is answered.
pub fn purge_report(account: &str, outcome: Result<(), HttpError>) -> (r: ActionReport)
    ensures
        report_view(r) == purge_report_spec(account@, outcome),
{
    match outcome {
        Ok(()) => ActionReport { refetch: false, alert: Alert::Success(purge_requested_message(account)) },
        Err(e) => ActionReport { refetch: false, alert: Alert::Error(e) },
    }
}

/// What the result area of the listing shows.
pub enum ListingView {
    /// The page of principals is still loading: nothing is shown.
    Loading,
    /// The session is not authorised: the browser goes to the login page.
    Login,
    /// The listing failed: this error is shown as an alert.
    Alert(HttpError),
    /// The rows of the principals of the page, out of this many results in all.
    Table { page: PrincipalPage, total_results: u32 },
    /// The search found nothing.
    NoResults,
}

/// What the result area shows for the state of the page of principals.
pub open spec fn listing_view_spec(loaded: Option<Result<PrincipalPage, HttpError>>) -> ListingView {
    match loaded {
        None => ListingView::Loading,
        Some(Err(HttpError::Unauthorized)) => ListingView::Login,
        Some(Err(e)) => ListingView::Alert(e),
        Some(Ok(page)) => if page.items@.len() > 0 {
            ListingView::Table { page, total_results: page.total as u32 }
        } else {
            ListingView::NoResults
        },
    }
}

/// The number of results the pagination counts for a view; none where the
/// view leaves it as it was.
pub open spec fn total_results_spec(v: ListingView) -> Option<u32> {
    match v {
        ListingView::Loading => None,
        ListingView::Login => None,
        ListingView::Alert(_) => Some(0),
        ListingView::Table { total_results, .. } => Some(total_results),
        ListingView::NoResults => Some(0),
    }
}

/// Law: while the page loads, and when the session is refused, the count
/// given to the pagination is left as it was; a failed or empty listing sets
/// it to zero, and a loaded table to the total the server reported.
pub proof fn law_pagination_count(loaded: Option<Result<PrincipalPage, HttpError>>)
    ensures
        total_results_spec(listing_view_spec(loaded)) == match loaded {
            None => None,
            Some(Err(HttpError::Unauthorized)) => None,
            Some(Err(_)) => Some(0u32),
            Some(Ok(page)) => if page.items@.len() > 0 { Some(page.total as u32) } else { Some(0u32) },
        },
{
}

/// Law: the result area sends a refused session to the login page, shows
/// any other failure as an alert of that same error, shows the rows of a
/// non-empty page, and says "no results" for an empty one.
pub proof fn law_listing_view(loaded: Option<Result<PrincipalPage, HttpError>>)
    ensures
        loaded is None ==> listing_view_spec(loaded) is Loading,
        loaded == Some(Err::<PrincipalPage, HttpError>(HttpError::Unauthorized)) ==> listing_view_spec(loaded) is Login,
        loaded matches Some(Err(e)) ==> (!(e is Unauthorized) ==> listing_view_spec(loaded) == ListingView::Alert(e)),
        loaded matches Some(Ok(page)) ==> (page.items@.len() > 0 ==> listing_view_spec(loaded)
            == (ListingView::Table { page, total_results: page.total as u32 })),
        loaded matches Some(Ok(page)) ==> (page.items@.len() == 0 ==> listing_view_spec(loaded) is NoResults),
{
}

/// Law: the headers name the columns that a row of the kind shows: the usage
/// column for accounts, the members column for groups and mailing lists, the
/// "member of" column for accounts and groups; always the name, e-mail and
/// type first and an untitled actions column last.
pub proof fn law_headers(t: PrincipalType)
    requires
        is_listed(t),
    ensures
        header_texts(t).subrange(0, 3) == seq!["Name"@, "E-mail"@, "Type"@],
        header_texts(t).last() == ""@,
        header_texts(t).contains("Usage"@) <==> t == PrincipalType::Individual,
        header_texts(t).contains("Members"@) <==> t != PrincipalType::Individual,
        header_texts(t).contains("Member of"@) <==> t != PrincipalType::List,
{
    reveal_strlit("Name");
    reveal_strlit("E-mail");
    reveal_strlit("Type");
    reveal_strlit("Usage");
    reveal_strlit("Members");
    reveal_strlit("Member of");
    reveal_strlit("");
    let h = header_texts(t);
    assert(h.subrange(0, 3) =~= seq!["Name"@, "E-mail"@, "Type"@]);
    assert("Usage"@[0] != "Members"@[0]);
    assert("Usage"@[0] != "Member of"@[0]);
    assert("Usage"@ != "Members"@);
    assert("Usage"@ != "Member of"@);
    assert("Members"@.len() == 7 && "Member of"@.len() == 9);
    assert("Members"@ != "Member of"@);
    assert("Name"@[0] != "Usage"@[0] && "Name"@[0] != "Members"@[0] && "Name"@[0] != "Member of"@[0]);
    assert("Type"@[0] != "Usage"@[0] && "Type"@[0] != "Members"@[0] && "Type"@[0] != "Member of"@[0]);
    assert("E-mail"@[0] != "Usage"@[0] && "E-mail"@[0] != "Members"@[0] && "E-mail"@[0] != "Member of"@[0]);
    assert(""@.len() == 0);
    if t == PrincipalType::Individual {
        assert(h[3] == "Usage"@);
        assert(h[4] == "Member of"@);
    } else if t == PrincipalType::Group {
        assert(h[3] == "Members"@);
        assert(h[4] == "Member of"@);
    } else {
        assert(h[3] == "Members"@);
    }
}

/// What the result area shows for the state of the page of principals.
pub fn listing_view(loaded: Option<Result<PrincipalPage, HttpError>>) -> (v: ListingView)
    ensures
        v == listing_view_spec(loaded),
{
    match loaded {
        None => ListingView::Loading,
        Some(Err(HttpError::Unauthorized)) => ListingView::Login,
        Some(Err(e)) => ListingView::Alert(e),
        Some(Ok(page)) => if page.items.len() > 0 {
            let total_results = page.total as u32;
            ListingView::Table { page, total_results }
        } else {
            ListingView::NoResults
        },
    }
}

impl ListingView {
    /// The number of results the pagination is given for this view.
    pub fn total_results(&self) -> (n: Option<u32>)
        ensures
            n == total_results_spec(*self),
    {
        match self {
            ListingView::Loading => None,
            ListingView::Login => None,
            ListingView::Alert(_) => Some(0),
            ListingView::Table { total_results, .. } => Some(*total_results),
            ListingView::NoResults => Some(0),
        }
    }
}

/// The key of a row: the principal's name, empty where it has none.
pub fn row_key(p: &Principal) -> (k: String)
    ensures
        k@ == principal_key(*p),
{
    match &p.name {
        Some(n) => n.clone(),
        None => String::new(),
    }
}

/// The names the "select all" box selects: the key of each row, in order.
pub fn all_keys(page: &PrincipalPage) -> (keys: Vec<String>)
    ensures
        texts(keys@) == page.items@.map_values(|p: Principal| principal_key(p)),
{
    let mut keys: Vec<String> = Vec::new();
    let n = page.items.len();
    let mut i: usize = 0;
    while i < n
        invariant
            n == page.items@.len(),
            i <= n,
            texts(keys@) == page.items@.subrange(0, i as int).map_values(|p: Principal| principal_key(p)),
        decreases n - i,
    {
        let k = row_key(&page.items[i]);
        let ghost before = keys@;
        keys.push(k);
        assert(texts(keys@) =~= texts(before).push(principal_key(page.items@[i as int])));
        assert(page.items@.subrange(0, i + 1) =~= page.items@.subrange(0, i as int).push(page.items@[i as int]));
        assert(texts(keys@) =~= page.items@.subrange(0, i + 1).map_values(|p: Principal| principal_key(p)));
        i = i + 1;
    }
    assert(page.items@.subrange(0, n as int) =~= page.items@);
    keys
}

} // verus!
