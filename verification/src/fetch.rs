//! The two request loops of the page, as state machines that the caller
//! drives: gathering the principals named on a page of the listing, and
//! deleting the selected principals one by one.
//!
//! The caller asks the machine which request to send next, sends it, and
//! hands the answer back; the machine decides whether to go on.

use vstd::prelude::*;
use vstd::pervasive::unreached;
use crate::principal::{HttpError, Principal, PrincipalPage};
use crate::listing::{texts, ActionReport, report_view, delete_report, delete_report_spec};
use crate::principal::{PrincipalType, is_listed};
use crate::route::{
    ApiRequest, Method, RequestView, delete_request, item_request_spec, list_request, list_request_spec,
    principal_request, request_view,
};

verus! {

/// The answer to a request for one principal.
pub type Outcome = Result<Principal, HttpError>;

/// Whether an answer stops the gathering: any failure but "not found".
pub open spec fn is_fatal(o: Outcome) -> bool {
    match o {
        Err(HttpError::NotFound) => false,
        Err(_) => true,
        Ok(_) => false,
    }
}

/// What the gathering makes of the answers for the names, in order: the
/// principals found, skipping the names that no longer exist, or the first
/// failure of another kind.
pub open spec fn gathered(outcomes: Seq<Outcome>) -> Result<Seq<Principal>, HttpError>
    decreases outcomes.len(),
{
    if outcomes.len() == 0 {
        Ok(Seq::empty())
    } else {
        match gathered(outcomes.drop_last()) {
            Err(e) => Err(e),
            Ok(items) => match outcomes.last() {
                Ok(p) => Ok(items.push(p)),
                Err(HttpError::NotFound) => Ok(items),
                Err(e) => Err(e),
            },
        }
    }
}

/// The state of a gathering: the names to fetch, how many were answered, and
/// the principals found so far.
pub ghost struct FetchView {
    pub names: Seq<Seq<char>>,
    pub next: nat,
    pub items: Seq<Principal>,
}

/// What one answer does to a gathering, and what the step reports.
pub open spec fn fetch_step(v: FetchView, o: Outcome) -> (FetchView, Result<(), HttpError>) {
    match o {
        Ok(p) => (FetchView { next: v.next + 1, items: v.items.push(p), ..v }, Ok(())),
        Err(HttpError::NotFound) => (FetchView { next: v.next + 1, ..v }, Ok(())),
        Err(e) => (v, Err(e)),
    }
}

/// The gathering after a run of answers, or the failure that stopped it.
pub open spec fn fetch_run(v: FetchView, outcomes: Seq<Outcome>) -> Result<FetchView, HttpError>
    decreases outcomes.len(),
{
    if outcomes.len() == 0 {
        Ok(v)
    } else {
        match fetch_run(v, outcomes.drop_last()) {
            Err(e) => Err(e),
            Ok(w) => match fetch_step(w, outcomes.last()) {
                (u, Ok(())) => Ok(u),
                (_, Err(e)) => Err(e),
            },
        }
    }
}

/// The gathering of the principals named on one page of the listing.
pub struct PrincipalFetch {
    names: Vec<String>,
    next: usize,
    items: Vec<Principal>,
}

impl View for PrincipalFetch {
    type V = FetchView;

    closed spec fn view(&self) -> FetchView {
        FetchView { names: texts(self.names@), next: self.next as nat, items: self.items@ }
    }
}

impl PrincipalFetch {
    /// The gathering is consistent: it has not answered more names than it has.
    #[verifier::type_invariant]
    spec fn wf(&self) -> bool {
        self.next <= self.names@.len()
    }

    /// A gathering of the given names, none fetched yet.
    pub fn new(names: Vec<String>) -> (f: Self)
        ensures
            f@ == (FetchView { names: texts(names@), next: 0, items: Seq::empty() }),
    {
        PrincipalFetch { names, next: 0, items: Vec::new() }
    }

    /// The name whose principal is to be fetched next; none once all are answered.
    pub fn pending(&self) -> (name: Option<String>)
        ensures
            match name {
                Some(n) => self@.next < self@.names.len() && n@ == self@.names[self@.next as int],
                None => self@.next == self@.names.len(),
            },
    {
        proof {
            use_type_invariant(self);
        }
        if self.next < self.names.len() {
            Some(self.names[self.next].clone())
        } else {
            None
        }
    }

    /// Takes the answer for the pending name: a found principal is kept, a
    /// missing one skipped; any other failure is handed back and nothing changes.
    pub fn record(&mut self, outcome: Outcome) -> (r: Result<(), HttpError>)
        requires
            old(self)@.next < old(self)@.names.len(),
        ensures
            (final(self)@, r) == fetch_step(old(self)@, outcome),
    {
        assert(self.next < self.names.len());
        match outcome {
            Ok(p) => {
                let mut items: Vec<Principal> = Vec::new();
                std::mem::swap(&mut items, &mut self.items);
                items.push(p);
                self.items = items;
                self.next = self.next + 1;
                Ok(())
            },
            Err(HttpError::NotFound) => {
                self.next = self.next + 1;
                Ok(())
            },
            Err(e) => Err(e),
        }
    }

    /// The page of principals gathered, with the total the listing reported.
    pub fn finish(self, total: u64) -> (page: PrincipalPage)
        ensures
            page.items@ == self@.items,
            page.total == total,
    {
        PrincipalPage { items: self.items, total }
    }
}

/// Law: answering the names of a new gathering one by one keeps exactly the
/// principals found, in order, skipping the names not found, and stops at the
/// first other failure.
pub proof fn law_fetch_gathers(names: Seq<Seq<char>>, outcomes: Seq<Outcome>)
    requires
        outcomes.len() <= names.len(),
    ensures
        ({
            let start = FetchView { names, next: 0, items: Seq::empty() };
            match (fetch_run(start, outcomes), gathered(outcomes)) {
                (Ok(v), Ok(items)) => v.items == items && v.next == outcomes.len() && v.names == names,
                (Err(e1), Err(e2)) => e1 == e2,
                _ => false,
            }
        }),
    decreases outcomes.len(),
{
    if outcomes.len() > 0 {
        law_fetch_gathers(names, outcomes.drop_last());
    }
}

/// The names on one page of the listing, with the total the server reports
/// for the whole listing.
pub struct NameList {
    pub names: Vec<String>,
    pub total: u64,
}

/// The state of the loading of one page of the listing.
pub ghost enum LoadView {
    /// The names are still to be listed, with this request.
    Listing(RequestView),
    /// The principals of the listed names are being gathered.
    Gathering { fetch: FetchView, total: u64 },
    /// A request failed; the page shows this error.
    Failed(HttpError),
}

/// The request the loading sends next: the listing first, then the principal
/// of each name in turn; nothing once all are answered or a request failed.
pub open spec fn load_pending(v: LoadView) -> Option<RequestView> {
    match v {
        LoadView::Listing(r) => Some(r),
        LoadView::Gathering { fetch, total } => if fetch.next < fetch.names.len() {
            Some(item_request_spec(Method::Get, "/api/principal"@, fetch.names[fetch.next as int]))
        } else {
            None
        },
        LoadView::Failed(_) => None,
    }
}

/// What the answer to the listing does: the gathering of the listed names
/// starts, or the loading fails with the same error.
pub open spec fn listing_step(answer: Result<(Seq<Seq<char>>, u64), HttpError>) -> LoadView {
    match answer {
        Ok((names, total)) => LoadView::Gathering {
            fetch: FetchView { names, next: 0, items: Seq::empty() },
            total,
        },
        Err(e) => LoadView::Failed(e),
    }
}

/// What the answer for one principal does to the loading.
pub open spec fn principal_step(v: LoadView, o: Outcome) -> LoadView {
    match v {
        LoadView::Gathering { fetch, total } => match fetch_step(fetch, o) {
            (f, Ok(())) => LoadView::Gathering { fetch: f, total },
            (_, Err(e)) => LoadView::Failed(e),
        },
        _ => v,
    }
}

/// The loading after a run of answers for principals.
pub open spec fn load_run(v: LoadView, outcomes: Seq<Outcome>) -> LoadView
    decreases outcomes.len(),
{
    if outcomes.len() == 0 {
        v
    } else {
        principal_step(load_run(v, outcomes.drop_last()), outcomes.last())
    }
}

/// The answer to the listing as text.
pub open spec fn name_list_view(answer: Result<NameList, HttpError>) -> Result<(Seq<Seq<char>>, u64), HttpError> {
    match answer {
        Ok(l) => Ok((texts(l.names@), l.total)),
        Err(e) => Err(e),
    }
}

enum LoadStage {
    Listing { page: u32, t: PrincipalType, filter: Option<String> },
    Gathering { fetch: PrincipalFetch, total: u64 },
    Failed(HttpError),
}

/// The loading of one page of the listing: the request for the names, then
/// one request per name.
pub struct PageLoad {
    stage: LoadStage,
}

impl View for PageLoad {
    type V = LoadView;

    closed spec fn view(&self) -> LoadView {
        match self.stage {
            LoadStage::Listing { page, t, filter } => LoadView::Listing(list_request_spec(page, t, filter)),
            LoadStage::Gathering { fetch, total } => LoadView::Gathering { fetch: fetch@, total },
            LoadStage::Failed(e) => LoadView::Failed(e),
        }
    }
}

impl PageLoad {
    /// The loading of one page of principals of a kind, with the search filter.
    pub fn new(page: u32, t: PrincipalType, filter: Option<String>) -> (l: Self)
        ensures
            l@ == LoadView::Listing(list_request_spec(page, t, filter)),
    {
        PageLoad { stage: LoadStage::Listing { page, t, filter } }
    }

    /// The request to send next, if any.
    pub fn pending_request(&self) -> (r: Option<ApiRequest>)
        ensures
            match r {
                Some(q) => load_pending(self@) == Some(request_view(q)),
                None => load_pending(self@) is None,
            },
    {
        match &self.stage {
            LoadStage::Listing { page, t, filter } => Some(list_request(*page, *t, filter.clone())),
            LoadStage::Gathering { fetch, .. } => match fetch.pending() {
                Some(name) => Some(principal_request(name.as_str())),
                None => None,
            },
            LoadStage::Failed(_) => None,
        }
    }

    /// Takes the answer to the listing.
    pub fn on_listing(self, answer: Result<NameList, HttpError>) -> (l: Self)
        requires
            self@ is Listing,
        ensures
            l@ == listing_step(name_list_view(answer)),
    {
        match answer {
            Ok(list) => {
                let fetch = PrincipalFetch::new(list.names);
                PageLoad { stage: LoadStage::Gathering { fetch, total: list.total } }
            },
            Err(e) => PageLoad { stage: LoadStage::Failed(e) },
        }
    }

    /// Takes the answer for the pending principal.
    pub fn on_principal(self, outcome: Outcome) -> (l: Self)
        requires
            self@ is Gathering,
            load_pending(self@) is Some,
        ensures
            l@ == principal_step(self@, outcome),
    {
        match self.stage {
            LoadStage::Gathering { mut fetch, total } => {
                match fetch.record(outcome) {
                    Ok(()) => PageLoad { stage: LoadStage::Gathering { fetch, total } },
                    Err(e) => PageLoad { stage: LoadStage::Failed(e) },
                }
            },
            _ => self,
        }
    }

    /// The page the loading ended with, or the error that stopped it.
    pub fn into_result(self) -> (r: Result<PrincipalPage, HttpError>)
        requires
            load_pending(self@) is None,
        ensures
            match self@ {
                LoadView::Gathering { fetch, total } => r matches Ok(p) && p.items@ == fetch.items && p.total == total,
                LoadView::Failed(e) => r == Err::<PrincipalPage, HttpError>(e),
                LoadView::Listing(_) => false,
            },
    {
        match self.stage {
            LoadStage::Gathering { fetch, total } => Ok(fetch.finish(total)),
            LoadStage::Failed(e) => Err(e),
            LoadStage::Listing { .. } => unreached(),
        }
    }
}

/// Law: a page load first sends its listing request; while gathering, the
/// request it sends next is a GET of `/api/principal` for the next listed
/// name, without parameters; once every name is answered it sends nothing.
pub proof fn law_load_requests(v: LoadView)
    ensures
        v matches LoadView::Listing(r) ==> load_pending(v) == Some(r),
        v matches LoadView::Gathering { fetch, total } ==> (
            if fetch.next < fetch.names.len() {
                load_pending(v) == Some(RequestView {
                    method: Method::Get,
                    path: "/api/principal"@,
                    item: Some(fetch.names[fetch.next as int]),
                    params: Seq::empty(),
                })
            } else {
                load_pending(v) is None
            }),
        v is Failed ==> load_pending(v) is None,
{
}

/// Law: a failed listing leaves the loading failed with the same error, and
/// no request for any principal is sent.
pub proof fn law_failed_listing_sends_nothing(e: HttpError)
    ensures
        listing_step(Err(e)) == LoadView::Failed(e),
        load_pending(listing_step(Err(e))) is None,
{
}

proof fn lemma_load_run_follows_fetch(start: FetchView, total: u64, outcomes: Seq<Outcome>)
    ensures
        load_run(LoadView::Gathering { fetch: start, total }, outcomes) == match fetch_run(start, outcomes) {
            Ok(f) => LoadView::Gathering { fetch: f, total },
            Err(e) => LoadView::Failed(e),
        },
    decreases outcomes.len(),
{
    if outcomes.len() > 0 {
        lemma_load_run_follows_fetch(start, total, outcomes.drop_last());
    }
}

/// Law: once the listing answers with names and a total, answering the
/// principal requests in turn ends with exactly the principals found, in
/// order, and that total; or, at the first failure other than "not found",
/// with that failure and no further request.
pub proof fn law_load_gathers(names: Seq<Seq<char>>, total: u64, outcomes: Seq<Outcome>)
    requires
        outcomes.len() <= names.len(),
    ensures
        ({
            let v = load_run(listing_step(Ok((names, total))), outcomes);
            match gathered(outcomes) {
                Ok(items) => v == LoadView::Gathering {
                    fetch: FetchView { names, next: outcomes.len(), items },
                    total,
                },
                Err(e) => v == LoadView::Failed(e) && load_pending(v) is None,
            }
        }),
{
    let start = FetchView { names, next: 0, items: Seq::empty() };
    lemma_load_run_follows_fetch(start, total, outcomes);
    law_fetch_gathers(names, outcomes);
}

/// The state of a deletion run: the names to delete, how many are deleted,
/// and the failure that stopped it, if one did.
pub ghost struct DeleteView {
    pub names: Seq<Seq<char>>,
    pub next: nat,
    pub failure: Option<HttpError>,
}

/// What one answer does to a deletion run.
pub open spec fn delete_step(v: DeleteView, o: Result<(), HttpError>) -> DeleteView {
    match o {
        Ok(()) => DeleteView { next: v.next + 1, ..v },
        Err(e) => DeleteView { failure: Some(e), ..v },
    }
}

/// The deletion run after a run of answers; answers after a failure change nothing.
pub open spec fn delete_run(v: DeleteView, outcomes: Seq<Result<(), HttpError>>) -> DeleteView
    decreases outcomes.len(),
{
    if outcomes.len() == 0 {
        v
    } else {
        let w = delete_run(v, outcomes.drop_last());
        if w.failure is Some {
            w
        } else {
            delete_step(w, outcomes.last())
        }
    }
}

/// The request a deletion run sends next: the deletion of the next name, until
/// all are deleted or one fails.
pub open spec fn delete_pending(v: DeleteView) -> Option<RequestView> {
    if v.failure is None && v.next < v.names.len() {
        Some(item_request_spec(Method::Delete, "/api/principal"@, v.names[v.next as int]))
    } else {
        None
    }
}

/// The deletion of the selected principals, one request after the other.
pub struct DeleteRun {
    names: Vec<String>,
    next: usize,
    failure: Option<HttpError>,
}

impl View for DeleteRun {
    type V = DeleteView;

    closed spec fn view(&self) -> DeleteView {
        DeleteView { names: texts(self.names@), next: self.next as nat, failure: self.failure }
    }
}

impl DeleteRun {
    /// The run is consistent: it has not deleted more names than it has.
    #[verifier::type_invariant]
    spec fn wf(&self) -> bool {
        self.next <= self.names@.len()
    }

    /// A run that deletes the given names, none deleted yet.
    pub fn new(names: Vec<String>) -> (d: Self)
        ensures
            d@ == (DeleteView { names: texts(names@), next: 0, failure: None }),
    {
        DeleteRun { names, next: 0, failure: None }
    }

    /// How many names the run deletes in all.
    pub fn count(&self) -> (n: usize)
        ensures
            n == self@.names.len(),
    {
        self.names.len()
    }

    /// The request to send next; none once all names are deleted or one failed.
    pub fn pending_request(&self) -> (r: Option<ApiRequest>)
        ensures
            match r {
                Some(q) => delete_pending(self@) == Some(request_view(q)),
                None => delete_pending(self@) is None,
            },
    {
        if self.failure.is_none() && self.next < self.names.len() {
            Some(delete_request(self.names[self.next].as_str()))
        } else {
            None
        }
    }

    /// Takes the answer to the pending deletion: on success the run moves on;
    /// a failure stops it.
    pub fn record(&mut self, outcome: Result<(), HttpError>)
        requires
            delete_pending(old(self)@) is Some,
        ensures
            final(self)@ == delete_step(old(self)@, outcome),
    {
        assert(self.next < self.names.len());
        match outcome {
            Ok(()) => {
                self.next = self.next + 1;
            },
            Err(e) => {
                self.failure = Some(e);
            },
        }
    }

    /// What the page does once the run has ended: the report for the
    /// deletion of all the selected names, or for the failure that stopped it.
    pub fn report(self, t: PrincipalType) -> (r: ActionReport)
        requires
            is_listed(t),
            delete_pending(self@) is None,
        ensures
            report_view(r) == delete_report_spec(t, self@.names.len(), match self@.failure {
                Some(e) => Err(e),
                None => Ok(()),
            }),
    {
        let count = self.names.len();
        match self.failure {
            Some(e) => delete_report(t, count, Err(e)),
            None => delete_report(t, count, Ok(())),
        }
    }
}

/// Law: while a deletion run goes on, the request it sends next is a DELETE of
/// `/api/principal` for the next name, without parameters; after a failure,
/// or once every name is deleted, it sends nothing.
pub proof fn law_delete_requests(v: DeleteView)
    ensures
        v.failure is None && v.next < v.names.len() ==> delete_pending(v) == Some(RequestView {
            method: Method::Delete,
            path: "/api/principal"@,
            item: Some(v.names[v.next as int]),
            params: Seq::empty(),
        }),
        v.failure is Some || v.next >= v.names.len() ==> delete_pending(v) is None,
{
}

/// Law: a deletion run sends its requests in order and stops at the first
/// failure, which it keeps; if none fails, every answer moves it on by one name.
pub proof fn law_delete_stops_at_first_failure(names: Seq<Seq<char>>, outcomes: Seq<Result<(), HttpError>>)
    ensures
        ({
            let v = delete_run(DeleteView { names, next: 0, failure: None }, outcomes);
            &&& v.names == names
            &&& match v.failure {
                None => v.next == outcomes.len()
                    && forall|i: int| 0 <= i < outcomes.len() ==> (#[trigger] outcomes[i]) is Ok,
                Some(e) => v.next < outcomes.len() && outcomes[v.next as int] == Err::<(), HttpError>(e)
                    && forall|j: int| 0 <= j < v.next ==> (#[trigger] outcomes[j]) is Ok,
            }
        }),
    decreases outcomes.len(),
{
    if outcomes.len() > 0 {
        let prefix = outcomes.drop_last();
        law_delete_stops_at_first_failure(names, prefix);
        let w = delete_run(DeleteView { names, next: 0, failure: None }, prefix);
        assert forall|j: int| 0 <= j < prefix.len() implies outcomes[j] == prefix[j] by {}
        if w.failure is Some {
        } else {
            assert(outcomes.last() == outcomes[outcomes.len() - 1]);
        }
    }
}

} // verus!
