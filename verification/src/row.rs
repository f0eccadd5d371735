//! One row of the listing: what it shows of a principal, and its action menu.

use vstd::prelude::*;
use vstd::string::*;
use crate::principal::{
    Principal, PrincipalType, display_type_name, is_listed, resource_segment, text_or_empty,
};
use crate::listing::{Confirmation, confirmation_view};
use crate::text::{counted, decimal, decimal_text, maybe_plural};

verus! {

/// What `humansize::format_size(bytes, DECIMAL)` writes for a number of bytes.
pub uninterp spec fn decimal_size_text(bytes: u64) -> Seq<char>;

/// `humansize::format_size` with the `DECIMAL` options (powers of 1000, units
/// "B", "kB", "MB", ...). Below 1000 bytes the value is written whole, a space
/// and "B"; for larger sizes the rounding and unit chosen are not stated.
#[verifier::external_body]
fn format_size_decimal(bytes: u64) -> (s: String)
    ensures
        s@ == decimal_size_text(bytes),
        bytes < 1000 ==> s@ == decimal_text(bytes as nat) + " B"@,
{
    humansize::format_size(bytes, humansize::DECIMAL)
}

/// The first character of the upper-case mapping of a character.
pub uninterp spec fn uppercase_lead(c: char) -> char;

/// `char::to_uppercase` followed by taking its first character: it always
/// yields one; an ASCII lower-case letter becomes its capital, another ASCII
/// character stays as it is. For other characters the Unicode mapping is not
/// stated.
#[verifier::external_body]
fn first_uppercase(c: char) -> (r: Option<char>)
    ensures
        r == Some(uppercase_lead(c)),
        ('a' <= c && c <= 'z') ==> r == Some(((c as nat) - 32) as char),
        ((c as nat) < 128 && !('a' <= c && c <= 'z')) ==> r == Some(c),
{
    c.to_uppercase().next()
}

/// The colour of the badge that shows a principal's type.
#[derive(Clone, Copy, Debug, PartialEq, Eq, Structural)]
pub enum BadgeColor {
    Yellow,
    Green,
    Red,
    Blue,
}

/// The badge colour of a principal type.
pub open spec fn badge_color_spec(t: PrincipalType) -> BadgeColor {
    match t {
        PrincipalType::Superuser => BadgeColor::Yellow,
        PrincipalType::Individual => BadgeColor::Green,
        PrincipalType::Group => BadgeColor::Red,
        PrincipalType::List => BadgeColor::Blue,
        _ => BadgeColor::Red,
    }
}

/// Law: the badge colours: yellow for the superuser, green for accounts, red
/// for groups, blue for mailing lists, and red for any other type.
pub proof fn law_badge_colors(t: PrincipalType)
    ensures
        t == PrincipalType::Superuser ==> badge_color_spec(t) == BadgeColor::Yellow,
        t == PrincipalType::Individual ==> badge_color_spec(t) == BadgeColor::Green,
        t == PrincipalType::List ==> badge_color_spec(t) == BadgeColor::Blue,
        t != PrincipalType::Superuser && t != PrincipalType::Individual && t != PrincipalType::List
            ==> badge_color_spec(t) == BadgeColor::Red,
{
}

/// The badge colour of a principal type.
pub fn badge_color(t: PrincipalType) -> (c: BadgeColor)
    ensures
        c == badge_color_spec(t),
{
    match t {
        PrincipalType::Superuser => BadgeColor::Yellow,
        PrincipalType::Individual => BadgeColor::Green,
        PrincipalType::Group => BadgeColor::Red,
        PrincipalType::List => BadgeColor::Blue,
        _ => BadgeColor::Red,
    }
}

/// The usage column: the used size with its share of the quota where there is
/// a positive quota, the used size alone where there is none, else "N/A".
pub open spec fn usage_label_spec(quota: Option<u64>, used_size: Option<Seq<char>>, percent: u8) -> Seq<char> {
    match (quota, used_size) {
        (Some(q), Some(u)) => if q > 0 {
            u + " ("@ + decimal_text(percent as nat) + "%)"@
        } else {
            u
        },
        (None, Some(u)) => u,
        (_, None) => "N/A"@,
    }
}

/// The usage column from the already written used size; `percent` is the
/// rounded share of the quota in use.
pub fn usage_label(quota: Option<u64>, used_size: Option<String>, percent: u8) -> (s: String)
    ensures
        s@ == usage_label_spec(quota, match used_size { Some(u) => Some(u@), None => None }, percent),
{
    match used_size {
        Some(u) => {
            match quota {
                Some(q) => if q > 0 {
                    let mut s = u;
                    s.append(" (");
                    s.append(decimal(percent as u64).as_str());
                    s.append("%)");
                    s
                } else {
                    u
                },
                None => u,
            }
        },
        None => "N/A".to_owned(),
    }
}

/// The used size as the usage column writes it.
pub open spec fn used_size_spec(used: Option<u64>) -> Option<Seq<char>> {
    match used {
        Some(u) => Some(decimal_size_text(u)),
        None => None,
    }
}

/// The usage column of a principal.
pub fn usage_text(quota: Option<u64>, used: Option<u64>, percent: u8) -> (s: String)
    ensures
        s@ == usage_label_spec(quota, used_size_spec(used), percent),
{
    let used_size = match used {
        Some(u) => Some(format_size_decimal(u)),
        None => None,
    };
    usage_label(quota, used_size, percent)
}

/// A row as text.
pub ghost struct RowView {
    pub name: Seq<char>,
    pub display_name: Seq<char>,
    pub display_letter: char,
    pub principal_id: Seq<char>,
    pub manage_url: Seq<char>,
    pub undelete_url: Seq<char>,
    pub email: Seq<char>,
    pub aliases: Seq<char>,
    pub badge_color: BadgeColor,
    pub type_label: Seq<char>,
    pub usage: Option<Seq<char>>,
    pub members: Option<Seq<char>>,
    pub member_of: Option<Seq<char>>,
}

/// What a row shows of a principal.
pub struct PrincipalRow {
    /// The principal's name, "unknown" where it has none.
    pub name: String,
    /// The description, else the name.
    pub display_name: String,
    /// The capital of the first character of the display name.
    pub display_letter: char,
    /// The name that identifies the principal in requests and links.
    pub principal_id: String,
    /// The link to the principal's edit form.
    pub manage_url: String,
    /// The link to the page that restores the principal's deleted mail.
    pub undelete_url: String,
    /// The first e-mail address.
    pub email: String,
    /// How many further addresses (aliases) the principal has.
    pub aliases: String,
    pub badge_color: BadgeColor,
    /// The name of the principal's type.
    pub type_label: String,
    /// The usage column, shown in the listing of accounts only.
    pub usage: Option<String>,
    /// The members column, shown for groups and mailing lists.
    pub members: Option<String>,
    /// The "member of" column, shown for accounts and groups.
    pub member_of: Option<String>,
}

/// The text of an optional string.
pub open spec fn opt_text(s: Option<String>) -> Option<Seq<char>> {
    match s {
        Some(t) => Some(t@),
        None => None,
    }
}

/// A row as text.
pub open spec fn row_view(r: PrincipalRow) -> RowView {
    RowView {
        name: r.name@,
        display_name: r.display_name@,
        display_letter: r.display_letter,
        principal_id: r.principal_id@,
        manage_url: r.manage_url@,
        undelete_url: r.undelete_url@,
        email: r.email@,
        aliases: r.aliases@,
        badge_color: r.badge_color,
        type_label: r.type_label@,
        usage: opt_text(r.usage),
        members: opt_text(r.members),
        member_of: opt_text(r.member_of),
    }
}

/// The description of a principal, else its name, else nothing.
pub open spec fn display_name_spec(p: Principal) -> Seq<char> {
    match p.description {
        Some(d) => d@,
        None => text_or_empty(p.name),
    }
}

/// The type a row shows: the principal's own, else the kind being listed.
pub open spec fn shown_type(p: Principal, t: PrincipalType) -> PrincipalType {
    match p.typ {
        Some(k) => k,
        None => t,
    }
}

/// `a - b`, or zero where `b` is larger.
pub open spec fn saturating_sub(a: nat, b: nat) -> nat {
    if a >= b { (a - b) as nat } else { 0 }
}

/// The row of a principal in the listing of kind `t`, given the letter its
/// avatar shows, the used size as written, and the rounded share of the quota.
pub open spec fn row_spec(p: Principal, t: PrincipalType, letter: char, used_size: Option<Seq<char>>, percent: u8) -> RowView {
    let id = text_or_empty(p.name);
    RowView {
        name: match p.name { Some(n) => n@, None => "unknown"@ },
        display_name: display_name_spec(p),
        display_letter: letter,
        principal_id: id,
        manage_url: "/manage/directory/"@ + resource_segment(t) + "/"@ + id + "/edit"@,
        undelete_url: "/manage/undelete/"@ + id,
        email: if p.emails@.len() > 0 { p.emails@[0]@ } else { Seq::empty() },
        aliases: counted(saturating_sub(p.emails@.len(), 1), "alias"@, "aliases"@),
        badge_color: badge_color_spec(shown_type(p, t)),
        type_label: display_type_name(shown_type(p, t)),
        usage: if t == PrincipalType::Individual {
            Some(usage_label_spec(p.quota, used_size, percent))
        } else {
            None
        },
        members: if t == PrincipalType::List || t == PrincipalType::Group {
            Some(counted(p.members@.len(), "member"@, "members"@))
        } else {
            None
        },
        member_of: if t == PrincipalType::Individual || t == PrincipalType::Group {
            Some(counted(p.member_of@.len(), "group"@, "groups"@))
        } else {
            None
        },
    }
}

fn text_of(s: &Option<String>) -> (r: String)
    ensures
        r@ == text_or_empty(*s),
{
    match s {
        Some(t) => t.clone(),
        None => String::new(),
    }
}

/// The row of a principal, from the letter its avatar shows and the used size
/// as written (present exactly where the principal reports a used size).
pub fn principal_row_from(p: &Principal, t: PrincipalType, letter: char, used_size: Option<String>, percent: u8) -> (r: PrincipalRow)
    requires
        is_listed(t),
    ensures
        row_view(r) == row_spec(*p, t, letter, opt_text(used_size), percent),
{
    let name = match &p.name {
        Some(n) => n.clone(),
        None => "unknown".to_owned(),
    };
    let display_name = match &p.description {
        Some(d) => d.clone(),
        None => text_of(&p.name),
    };
    let id = text_of(&p.name);
    let mut manage_url = "/manage/directory/".to_owned();
    manage_url.append(t.resource_name());
    manage_url.append("/");
    manage_url.append(id.as_str());
    manage_url.append("/edit");
    let mut undelete_url = "/manage/undelete/".to_owned();
    undelete_url.append(id.as_str());
    let email = if p.emails.len() > 0 { p.emails[0].clone() } else { String::new() };
    let n_emails = p.emails.len();
    let aliases = maybe_plural(if n_emails >= 1 { n_emails - 1 } else { 0 }, "alias", "aliases");
    let kind = match p.typ {
        Some(k) => k,
        None => t,
    };
    let usage = match t {
        PrincipalType::Individual => Some(usage_label(p.quota, used_size, percent)),
        _ => None,
    };
    let members = match t {
        PrincipalType::List | PrincipalType::Group => Some(maybe_plural(p.members.len(), "member", "members")),
        _ => None,
    };
    let member_of = match t {
        PrincipalType::Individual | PrincipalType::Group => Some(maybe_plural(p.member_of.len(), "group", "groups")),
        _ => None,
    };
    PrincipalRow {
        name,
        display_name,
        display_letter: letter,
        principal_id: id,
        manage_url,
        undelete_url,
        email,
        aliases,
        badge_color: badge_color(kind),
        type_label: kind.name().to_owned(),
        usage,
        members,
        member_of,
    }
}

/// Law: the e-mail cell shows the first address, and the aliases cell counts
/// the addresses after it; a principal with one address or none shows
/// "0 aliases".
pub proof fn law_addresses_and_aliases(p: Principal, t: PrincipalType, letter: char, used_size: Option<Seq<char>>, percent: u8)
    ensures
        p.emails@.len() > 0 ==> row_spec(p, t, letter, used_size, percent).email == p.emails@[0]@,
        p.emails@.len() == 0 ==> row_spec(p, t, letter, used_size, percent).email == Seq::<char>::empty(),
        p.emails@.len() > 0 ==> row_spec(p, t, letter, used_size, percent).aliases
            == counted((p.emails@.len() - 1) as nat, "alias"@, "aliases"@),
        p.emails@.len() <= 1 ==> row_spec(p, t, letter, used_size, percent).aliases == "0 aliases"@,
{
    reveal_strlit("0 aliases");
    reveal_strlit("aliases");
    if p.emails@.len() <= 1 {
        let a = row_spec(p, t, letter, used_size, percent).aliases;
        assert(decimal_text(0) == seq!['0']);
        assert(a =~= "0 aliases"@);
    }
}

/// Law: the row shows the usage column only in the listing of accounts, the
/// members column only for groups and mailing lists, and the "member of"
/// column only for accounts and groups; a member count is the number of
/// members (or of groups the principal belongs to).
pub proof fn law_row_columns(p: Principal, t: PrincipalType, letter: char, used_size: Option<Seq<char>>, percent: u8)
    requires
        is_listed(t),
    ensures
        (row_spec(p, t, letter, used_size, percent).usage is Some) <==> t == PrincipalType::Individual,
        (row_spec(p, t, letter, used_size, percent).members is Some) <==> t != PrincipalType::Individual,
        (row_spec(p, t, letter, used_size, percent).member_of is Some) <==> t != PrincipalType::List,
        t != PrincipalType::Individual ==> row_spec(p, t, letter, used_size, percent).members
            == Some(counted(p.members@.len(), "member"@, "members"@)),
        t != PrincipalType::List ==> row_spec(p, t, letter, used_size, percent).member_of
            == Some(counted(p.member_of@.len(), "group"@, "groups"@)),
{
}

/// Law: the usage column shows "N/A" without a used size, the used size
/// alone without a positive quota, and the used size followed by the share in
/// brackets with a positive quota.
pub proof fn law_usage_label(quota: Option<u64>, used_size: Option<Seq<char>>, percent: u8)
    ensures
        used_size is None ==> usage_label_spec(quota, used_size, percent) == "N/A"@,
        used_size matches Some(u) ==> (!(quota matches Some(q) && q > 0) ==> usage_label_spec(quota, used_size, percent) == u),
        used_size matches Some(u) ==> (quota matches Some(q) ==> (q > 0 ==> usage_label_spec(quota, used_size, percent)
            == u + " ("@ + decimal_text(percent as nat) + "%)"@)),
{
}

/// The letter an avatar shows for a display name: the capital of its first
/// character, or the nul character for an empty name.
pub open spec fn avatar_letter(display: Seq<char>) -> char {
    if display.len() > 0 {
        uppercase_lead(display[0])
    } else {
        '\0'
    }
}

/// The row of a principal in the listing of kind `t`; `percent` is the
/// rounded share of the quota in use, shown in the usage column.
pub fn principal_row(p: &Principal, t: PrincipalType, percent: u8) -> (r: PrincipalRow)
    requires
        is_listed(t),
    ensures
        row_view(r) == row_spec(*p, t, avatar_letter(display_name_spec(*p)), used_size_spec(p.used_quota), percent),
        ({
            let d = display_name_spec(*p);
            d.len() > 0 && 'a' <= d[0] && d[0] <= 'z' ==> r.display_letter == ((d[0] as nat) - 32) as char
        }),
        ({
            let d = display_name_spec(*p);
            d.len() > 0 && (d[0] as nat) < 128 && !('a' <= d[0] && d[0] <= 'z') ==> r.display_letter == d[0]
        }),
        display_name_spec(*p).len() == 0 ==> r.display_letter == '\0',
{
    let display_name = match &p.description {
        Some(d) => d.clone(),
        None => text_of(&p.name),
    };
    let letter = if display_name.as_str().unicode_len() > 0 {
        match first_uppercase(display_name.as_str().get_char(0)) {
            Some(c) => c,
            None => '\0',
        }
    } else {
        '\0'
    };
    let used_size = match p.used_quota {
        Some(u) => Some(format_size_decimal(u)),
        None => None,
    };
    principal_row_from(p, t, letter, used_size, percent)
}

/// The dialog that asks before one principal is deleted from its row menu.
pub fn row_delete_confirmation(principal_id: &str) -> (c: Confirmation)
    ensures
        confirmation_view(c) == ("Confirm deletion"@,
            "Are you sure you want to delete this account? This action cannot be undone."@,
            "Delete "@ + principal_id@),
{
    let mut button = "Delete ".to_owned();
    button.append(principal_id);
    Confirmation {
        title: "Confirm deletion".to_owned(),
        message: "Are you sure you want to delete this account? This action cannot be undone.".to_owned(),
        button,
    }
}

/// Whether the action menu of the row with this id is open, given the id of
/// the open menu (empty when none is).
pub open spec fn menu_open(open: Seq<char>, id: Seq<char>) -> bool {
    open == id
}

/// The open menu after the menu button of a row is pressed: the row's menu
/// opens, or closes where it was the open one.
pub open spec fn toggled(open: Seq<char>, id: Seq<char>) -> Seq<char> {
    if open != id { id } else { Seq::empty() }
}

/// Whether the action menu of a row is open.
pub fn is_menu_open(open: &String, id: &String) -> (b: bool)
    ensures
        b == menu_open(open@, id@),
{
    *open == *id
}

/// Presses the menu button of the row with this id.
pub fn toggle_menu(open: &mut String, id: &String)
    ensures
        final(open)@ == toggled(old(open)@, id@),
{
    if *open != *id {
        *open = id.clone();
    } else {
        *open = String::new();
    }
}

/// Closes the open action menu, as choosing any of its actions does.
pub fn close_menu(open: &mut String)
    ensures
        final(open)@ == Seq::<char>::empty(),
{
    *open = String::new();
}

/// Law: pressing a row's menu button opens its menu exactly when it was
/// closed (for a row with a name).
pub proof fn law_toggle_flips(open: Seq<char>, id: Seq<char>)
    requires
        id.len() > 0,
    ensures
        menu_open(toggled(open, id), id) == !menu_open(open, id),
{
}

/// Law: after a menu button is pressed, no other named row's menu is open.
pub proof fn law_toggle_single(open: Seq<char>, id: Seq<char>, other: Seq<char>)
    requires
        other.len() > 0,
        other != id,
    ensures
        !menu_open(toggled(open, id), other),
{
}

/// Law: pressing the same menu button twice closes the menu again where it
/// was closed, and reopens it where it was open.
pub proof fn law_toggle_twice(open: Seq<char>, id: Seq<char>)
    requires
        id.len() > 0,
        open.len() == 0 || open == id,
    ensures
        toggled(toggled(open, id), id) == open,
{
}

} // verus!
