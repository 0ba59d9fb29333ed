use vstd::prelude::*;

use crate::metadata::{entry_matches, lowercase, Metadata};

verus! {

/// What `str::trim` makes of a string.
pub uninterp spec fn trimmed_of(s: Seq<char>) -> Seq<char>;

/// Relies on `str::trim`: the result depends on the characters alone.
#[verifier::external_body]
fn trim_str(s: &str) -> (r: &str)
    ensures
        r@ == trimmed_of(s@),
{
    s.trim()
}

/// The indices below `n` of the entries that match `query`, ascending.
pub open spec fn matching_indices(entries: Seq<Metadata>, query: Seq<char>, n: nat) -> Seq<usize>
    decreases n,
{
    if n == 0 {
        Seq::empty()
    } else {
        let before = matching_indices(entries, query, (n - 1) as nat);
        if entry_matches(entries[n - 1], query) {
            before.push((n - 1) as usize)
        } else {
            before
        }
    }
}

/// The registered previews, as far as the host's decisions go: their
/// metadata, the search query, and which one is selected.
pub struct Registry {
    entries: Vec<Metadata>,
    search: String,
    selected_index: Option<usize>,
}

impl Registry {
    /// The selection, when there is one, names a registered preview.
    #[verifier::type_invariant]
    spec fn inv(&self) -> bool {
        match self.selected_index {
            Some(i) => i < self.entries@.len(),
            None => true,
        }
    }

    /// The metadata of each registered preview, in order.
    pub closed spec fn spec_entries(&self) -> Seq<Metadata> {
        self.entries@
    }

    /// The search query as typed.
    pub closed spec fn spec_search(&self) -> Seq<char> {
        self.search@
    }

    /// The selected preview's index.
    pub closed spec fn spec_selected(&self) -> Option<usize> {
        self.selected_index
    }

    /// No previews, no search, nothing selected.
    pub fn new() -> (r: Self)
        ensures
            r.spec_entries() == Seq::<Metadata>::empty(),
            r.spec_search() == Seq::<char>::empty(),
            r.spec_selected().is_none(),
    {
        Registry { entries: Vec::new(), search: String::new(), selected_index: None }
    }

    /// Adds a preview described by `metadata` at the end.
    pub fn register(&mut self, metadata: Metadata)
        ensures
            final(self).spec_entries() == old(self).spec_entries().push(metadata),
            final(self).spec_search() == old(self).spec_search(),
            final(self).spec_selected() == old(self).spec_selected(),
    {
        proof {
            use_type_invariant(&*self);
        }
        let selected = self.selected_index;
        self.selected_index = None;
        let mut entries: Vec<Metadata> = Vec::new();
        core::mem::swap(&mut self.entries, &mut entries);
        entries.push(metadata);
        core::mem::swap(&mut self.entries, &mut entries);
        self.selected_index = selected;
    }

    /// Selects the first preview if there is any, as when the host starts.
    pub fn start(&mut self)
        ensures
            final(self).spec_entries() == old(self).spec_entries(),
            final(self).spec_search() == old(self).spec_search(),
            final(self).spec_selected() == if old(self).spec_entries().len() > 0 {
                Some(0usize)
            } else {
                old(self).spec_selected()
            },
    {
        if self.entries.len() > 0 {
            self.selected_index = Some(0);
        }
    }

    /// Selects the preview at `index`; an index past the end is ignored.
    pub fn select(&mut self, index: usize)
        ensures
            final(self).spec_entries() == old(self).spec_entries(),
            final(self).spec_search() == old(self).spec_search(),
            final(self).spec_selected() == if index < old(self).spec_entries().len() {
                Some(index)
            } else {
                old(self).spec_selected()
            },
    {
        if index < self.entries.len() {
            self.selected_index = Some(index);
        }
    }

    /// The preview that messages are forwarded to, if any.
    pub fn selected(&self) -> (r: Option<usize>)
        ensures
            r == self.spec_selected(),
            r matches Some(i) ==> i < self.spec_entries().len(),
    {
        proof {
            use_type_invariant(self);
        }
        self.selected_index
    }

    /// The number of registered previews.
    pub fn len(&self) -> (r: usize)
        ensures
            r == self.spec_entries().len(),
    {
        self.entries.len()
    }

    /// Replaces the search query.
    pub fn change_search(&mut self, text: String)
        ensures
            final(self).spec_search() == text@,
            final(self).spec_entries() == old(self).spec_entries(),
            final(self).spec_selected() == old(self).spec_selected(),
    {
        proof {
            use_type_invariant(&*self);
        }
        self.search = text;
    }

    /// The search query as typed.
    pub fn search(&self) -> (r: &str)
        ensures
            r@ == self.spec_search(),
    {
        self.search.as_str()
    }

    /// The indices of the previews whose lowercased fields contain `query`, ascending.
    pub fn visible_for(&self, query: &str) -> (r: Vec<usize>)
        ensures
            r@ == matching_indices(self.spec_entries(), query@, self.spec_entries().len()),
    {
        let mut r: Vec<usize> = Vec::new();
        let mut i: usize = 0;
        while i < self.entries.len()
            invariant
                0 <= i <= self.entries@.len(),
                r@ == matching_indices(self.entries@, query@, i as nat),
            decreases self.entries@.len() - i,
        {
            if self.entries[i].matches(query) {
                r.push(i);
            }
            i = i + 1;
        }
        r
    }

    /// The indices of the previews that match the search query, trimmed and
    /// lowercased, ascending.
    pub fn visible(&self) -> (r: Vec<usize>)
        ensures
            r@ == matching_indices(
                self.spec_entries(),
                lower_of_trimmed(self.spec_search()),
                self.spec_entries().len(),
            ),
    {
        let trimmed = trim_str(self.search.as_str());
        let query = lowercase(trimmed);
        self.visible_for(query.as_str())
    }
}

/// The query a search text stands for: trimmed, then lowercased.
pub open spec fn lower_of_trimmed(s: Seq<char>) -> Seq<char> {
    crate::metadata::lower_of(trimmed_of(s))
}

} // verus!
