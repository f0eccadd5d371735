//! The directory's data: principal types, principals and the errors the
//! server answers with.

use vstd::prelude::*;

verus! {

/// The kind of a directory principal.
#[derive(Clone, Copy, Debug, PartialEq, Eq, Structural)]
pub enum PrincipalType {
    Individual,
    Group,
    Resource,
    Location,
    Superuser,
    List,
    Other,
}

/// The kinds that the directory page lists: accounts, groups and mailing lists.
pub open spec fn is_listed(t: PrincipalType) -> bool {
    t == PrincipalType::Individual || t == PrincipalType::Group || t == PrincipalType::List
}

/// The identifier the server uses for a principal type.
pub open spec fn type_id(t: PrincipalType) -> Seq<char> {
    match t {
        PrincipalType::Individual => "individual"@,
        PrincipalType::Group => "group"@,
        PrincipalType::Resource => "resource"@,
        PrincipalType::Location => "location"@,
        PrincipalType::Superuser => "superuser"@,
        PrincipalType::List => "list"@,
        PrincipalType::Other => "other"@,
    }
}

/// The name of a principal type as the badge of a row shows it.
pub open spec fn display_type_name(t: PrincipalType) -> Seq<char> {
    match t {
        PrincipalType::Individual => "Individual"@,
        PrincipalType::Group => "Group"@,
        PrincipalType::Resource => "Resource"@,
        PrincipalType::Location => "Location"@,
        PrincipalType::Superuser => "Superuser"@,
        PrincipalType::List => "List"@,
        PrincipalType::Other => "Other"@,
    }
}

/// The path segment of the page that lists a kind of principal.
pub open spec fn resource_segment(t: PrincipalType) -> Seq<char>
    recommends
        is_listed(t),
{
    match t {
        PrincipalType::Individual => "accounts"@,
        PrincipalType::Group => "groups"@,
        _ => "lists"@,
    }
}

/// The noun for one item of a kind of principal, or for several.
pub open spec fn item_noun(t: PrincipalType, plural: bool) -> Seq<char>
    recommends
        is_listed(t),
{
    match (t, plural) {
        (PrincipalType::Individual, false) => "account"@,
        (PrincipalType::Individual, true) => "accounts"@,
        (PrincipalType::Group, false) => "group"@,
        (PrincipalType::Group, true) => "groups"@,
        (_, false) => "list"@,
        (_, true) => "lists"@,
    }
}

/// Law: the server's identifiers of the principal types, one per type.
pub proof fn law_type_ids()
    ensures
        type_id(PrincipalType::Individual) == "individual"@,
        type_id(PrincipalType::Group) == "group"@,
        type_id(PrincipalType::Resource) == "resource"@,
        type_id(PrincipalType::Location) == "location"@,
        type_id(PrincipalType::Superuser) == "superuser"@,
        type_id(PrincipalType::List) == "list"@,
        type_id(PrincipalType::Other) == "other"@,
{
}

/// Law: the path segments of the three listings, one per listed kind; the
/// kind of an account is the individual principal.
pub proof fn law_resource_segments()
    ensures
        resource_segment(PrincipalType::Individual) == "accounts"@,
        resource_segment(PrincipalType::Group) == "groups"@,
        resource_segment(PrincipalType::List) == "lists"@,
        item_noun(PrincipalType::Individual, false) == "account"@,
        item_noun(PrincipalType::Group, false) == "group"@,
        item_noun(PrincipalType::List, false) == "list"@,
{
}

/// Law: distinct principal types have distinct identifiers.
pub proof fn law_type_ids_distinct(a: PrincipalType, b: PrincipalType)
    requires
        a != b,
    ensures
        type_id(a) != type_id(b),
{

    reveal_strlit("individual");
    reveal_strlit("group");
    reveal_strlit("resource");
    reveal_strlit("location");
    reveal_strlit("superuser");
    reveal_strlit("list");
    reveal_strlit("other");
    reveal_strlit("Individual");
    reveal_strlit("Group");
    reveal_strlit("Resource");
    reveal_strlit("Location");
    reveal_strlit("Superuser");
    reveal_strlit("List");
    reveal_strlit("Other");
    if type_id(a) == type_id(b) {
        assert(type_id(a).len() == type_id(b).len());
        assert(type_id(a)[0] == type_id(b)[0]);
        assert(type_id(a)[1] == type_id(b)[1]);
    }
}

/// Law: the name a badge shows is the type's identifier with a capital first
/// letter.
pub proof fn law_type_name_is_capitalised_id(t: PrincipalType)
    ensures
        display_type_name(t).len() == type_id(t).len(),
        display_type_name(t).drop_first() == type_id(t).drop_first(),
        display_type_name(t)[0] as nat + 32 == type_id(t)[0] as nat,
{

    reveal_strlit("individual");
    reveal_strlit("group");
    reveal_strlit("resource");
    reveal_strlit("location");
    reveal_strlit("superuser");
    reveal_strlit("list");
    reveal_strlit("other");
    reveal_strlit("Individual");
    reveal_strlit("Group");
    reveal_strlit("Resource");
    reveal_strlit("Location");
    reveal_strlit("Superuser");
    reveal_strlit("List");
    reveal_strlit("Other");
    assert(display_type_name(t).drop_first() =~= type_id(t).drop_first());
}

/// Law: for each listed kind, the plural noun is the singular with an "s",
/// and it is also the path segment of the kind's listing.
pub proof fn law_item_nouns(t: PrincipalType)
    requires
        is_listed(t),
    ensures
        item_noun(t, true) == item_noun(t, false) + "s"@,
        item_noun(t, true) == resource_segment(t),
{
    reveal_strlit("account");
    reveal_strlit("accounts");
    reveal_strlit("group");
    reveal_strlit("groups");
    reveal_strlit("list");
    reveal_strlit("lists");
    reveal_strlit("s");
    assert(item_noun(t, true) =~= item_noun(t, false) + "s"@);
}

impl PrincipalType {
    /// Whether the directory page lists principals of this kind.
    pub fn is_listed(&self) -> (b: bool)
        ensures
            b == is_listed(*self),
    {
        match self {
            PrincipalType::Individual | PrincipalType::Group | PrincipalType::List => true,
            _ => false,
        }
    }

    /// The identifier the server uses for this type.
    pub fn id(&self) -> (s: &'static str)
        ensures
            s@ == type_id(*self),
    {
        match self {
            PrincipalType::Individual => "individual",
            PrincipalType::Group => "group",
            PrincipalType::Resource => "resource",
            PrincipalType::Location => "location",
            PrincipalType::Superuser => "superuser",
            PrincipalType::List => "list",
            PrincipalType::Other => "other",
        }
    }

    /// The name of this type.
    pub fn name(&self) -> (s: &'static str)
        ensures
            s@ == display_type_name(*self),
    {
        match self {
            PrincipalType::Individual => "Individual",
            PrincipalType::Group => "Group",
            PrincipalType::Resource => "Resource",
            PrincipalType::Location => "Location",
            PrincipalType::Superuser => "Superuser",
            PrincipalType::List => "List",
            PrincipalType::Other => "Other",
        }
    }

    /// The path segment of the page that lists principals of this type.
    pub fn resource_name(&self) -> (s: &'static str)
        requires
            is_listed(*self),
        ensures
            s@ == resource_segment(*self),
    {
        match self {
            PrincipalType::Individual => "accounts",
            PrincipalType::Group => "groups",
            _ => "lists",
        }
    }

    /// The noun for one principal of this type, or for several.
    pub fn item_name(&self, plural: bool) -> (s: &'static str)
        requires
            is_listed(*self),
        ensures
            s@ == item_noun(*self, plural),
    {
        match (self, plural) {
            (PrincipalType::Individual, false) => "account",
            (PrincipalType::Individual, true) => "accounts",
            (PrincipalType::Group, false) => "group",
            (PrincipalType::Group, true) => "groups",
            (_, false) => "list",
            (_, true) => "lists",
        }
    }
}

/// A directory principal as the server describes it; only the fields that the
/// listing shows.
pub struct Principal {
    pub typ: Option<PrincipalType>,
    pub quota: Option<u64>,
    pub used_quota: Option<u64>,
    pub name: Option<String>,
    pub description: Option<String>,
    pub emails: Vec<String>,
    pub members: Vec<String>,
    pub member_of: Vec<String>,
}

/// The text of an optional string, empty where there is none.
pub open spec fn text_or_empty(s: Option<String>) -> Seq<char> {
    match s {
        Some(t) => t@,
        None => Seq::empty(),
    }
}

/// The name of a principal, empty where it has none.
pub open spec fn principal_key(p: Principal) -> Seq<char> {
    text_or_empty(p.name)
}

/// How a request to the server failed.
pub enum HttpError {
    /// The session is not (or no longer) authorised.
    Unauthorized,
    /// The requested object does not exist.
    NotFound,
    /// Any other failure, with the text to show.
    Other(String),
}

/// One page of principals as the server answers a listing.
pub struct PrincipalPage {
    pub items: Vec<Principal>,
    pub total: u64,
}

} // verus!
