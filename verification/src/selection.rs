//! The set of selected rows, and the deletions its confirmation starts.

use vstd::prelude::*;
use crate::fetch::{DeleteRun, DeleteView};
use crate::listing::texts;
use crate::principal::{PrincipalType, is_listed};
use crate::route::{same_text, selected_type, route_type};

verus! {

broadcast use vstd::seq_lib::group_seq_properties;

/// The names of the selected rows, each once.
pub struct Selection {
    names: Vec<String>,
}

impl View for Selection {
    type V = Set<Seq<char>>;

    closed spec fn view(&self) -> Set<Seq<char>> {
        texts(self.names@).to_set()
    }
}

impl Selection {
    /// No name is held twice.
    #[verifier::type_invariant]
    spec fn wf(&self) -> bool {
        texts(self.names@).no_duplicates()
    }

    /// Nothing selected.
    pub fn new() -> (s: Self)
        ensures
            s@ == Set::<Seq<char>>::empty(),
    {
        let s = Selection { names: Vec::new() };
        assert(s@ =~= Set::<Seq<char>>::empty());
        s
    }

    /// How many rows are selected.
    pub fn len(&self) -> (n: usize)
        ensures
            n == self@.len(),
    {
        proof {
            use_type_invariant(self);
            texts(self.names@).unique_seq_to_set();
        }
        self.names.len()
    }

    /// Whether the row with this name is selected.
    pub fn contains(&self, name: &str) -> (b: bool)
        ensures
            b == self@.contains(name@),
    {
        let n = self.names.len();
        let mut i: usize = 0;
        while i < n
            invariant
                n == self.names@.len(),
                i <= n,
                forall|j: int| 0 <= j < i ==> self.names@[j]@ != name@,
            decreases n - i,
        {
            if same_text(self.names[i].as_str(), name) {
                assert(texts(self.names@)[i as int] == name@);
                return true;
            }
            i = i + 1;
        }
        assert forall|j: int| 0 <= j < texts(self.names@).len() implies texts(self.names@)[j] != name@ by {
            assert(texts(self.names@)[j] == self.names@[j]@);
        }
        false
    }

    /// Selects the row with this name.
    pub fn insert(&mut self, name: String)
        ensures
            final(self)@ == old(self)@.insert(name@),
    {
        proof {
            use_type_invariant(&*self);
        }
        if !self.contains(name.as_str()) {
            let ghost before = texts(self.names@);
            let ghost n = name@;
            let mut names: Vec<String> = Vec::new();
            std::mem::swap(&mut names, &mut self.names);
            names.push(name);
            assert(texts(names@) =~= before.push(n));
            self.names = names;
            assert(texts(self.names@) =~= before.push(n));
            assert(self@ =~= old(self)@.insert(n));
        } else {
            assert(self@ =~= old(self)@.insert(name@));
        }
    }

    /// Unselects the row with this name.
    pub fn remove(&mut self, name: &str)
        ensures
            final(self)@ == old(self)@.remove(name@),
    {
        proof {
            use_type_invariant(&*self);
        }
        let ghost old_texts = texts(self.names@);
        let mut kept: Vec<String> = Vec::new();
        let n = self.names.len();
        let mut i: usize = 0;
        while i < n
            invariant
                n == self.names@.len(),
                i <= n,
                old_texts == texts(self.names@),
                old_texts.no_duplicates(),
                texts(kept@).no_duplicates(),
                forall|x: Seq<char>| texts(kept@).contains(x) <==>
                    (x != name@ && old_texts.subrange(0, i as int).contains(x)),
            decreases n - i,
        {
            let ghost before = texts(kept@);
            let ghost prefix = old_texts.subrange(0, i as int);
            assert(old_texts.subrange(0, i + 1) =~= prefix.push(old_texts[i as int]));
            if !same_text(self.names[i].as_str(), name) {
                let c = self.names[i].clone();
                kept.push(c);
                assert(texts(kept@) =~= before.push(old_texts[i as int]));
                assert(!before.contains(old_texts[i as int])) by {
                    if before.contains(old_texts[i as int]) {
                        let k = choose|k: int| 0 <= k < prefix.len() && prefix[k] == old_texts[i as int];
                        assert(old_texts[k] == old_texts[i as int]);
                    }
                }
            }
            i = i + 1;
        }
        assert(old_texts.subrange(0, n as int) =~= old_texts);
        self.names = kept;
        assert(self@ =~= old(self)@.remove(name@));
    }

    /// Unselects every row.
    pub fn clear(&mut self)
        ensures
            final(self)@ == Set::<Seq<char>>::empty(),
    {
        self.names = Vec::new();
        assert(self@ =~= Set::<Seq<char>>::empty());
    }

    /// Hands out the selected names, each once, and unselects every row.
    pub fn take(&mut self) -> (names: Vec<String>)
        ensures
            final(self)@ == Set::<Seq<char>>::empty(),
            texts(names@).to_set() == old(self)@,
            texts(names@).no_duplicates(),
    {
        proof {
            use_type_invariant(&*self);
        }
        let mut names: Vec<String> = Vec::new();
        std::mem::swap(&mut names, &mut self.names);
        assert(self@ =~= Set::<Seq<char>>::empty());
        names
    }
}

/// The kind of principal listed, read from the `object` route parameter, as
/// the route changes (or the page opens): nothing stays selected across it.
pub fn select_kind(object: Option<&str>, selection: &mut Selection) -> (t: PrincipalType)
    ensures
        t == route_type(match object { Some(o) => Some(o@), None => None }),
        is_listed(t),
        final(selection)@ == Set::<Seq<char>>::empty(),
{
    selection.clear();
    selected_type(object)
}

/// Confirming the bulk deletion: the selection is handed to a deletion run,
/// each selected name once, and nothing stays selected.
pub fn confirm_bulk_delete(selection: &mut Selection) -> (run: DeleteRun)
    ensures
        final(selection)@ == Set::<Seq<char>>::empty(),
        run@.names.to_set() == old(selection)@,
        run@.names.no_duplicates(),
        run@.next == 0,
        run@.failure is None,
{
    DeleteRun::new(selection.take())
}

/// Confirming the deletion from a row's menu: a deletion run of that row's
/// name alone.
pub fn confirm_row_delete(principal_id: &String) -> (run: DeleteRun)
    ensures
        run@ == (DeleteView { names: seq![principal_id@], next: 0, failure: None }),
{
    let mut names: Vec<String> = Vec::new();
    names.push(principal_id.clone());
    let run = DeleteRun::new(names);
    assert(texts(names@) =~= seq![principal_id@]);
    run
}

} // verus!
