use vstd::prelude::*;

use crate::value::strings_view;

verus! {

/// What `str::to_lowercase` makes of a string.
pub uninterp spec fn lower_of(s: Seq<char>) -> Seq<char>;

/// Relies on `str::to_lowercase`: the result depends on the characters alone.
#[verifier::external_body]
pub(crate) fn lowercase(s: &str) -> (r: String)
    ensures
        r@ == lower_of(s@),
{
    s.to_lowercase()
}

/// `needle` occurs in `haystack` as a run of consecutive characters.
pub open spec fn has_substring(haystack: Seq<char>, needle: Seq<char>) -> bool {
    exists|i: int|
        0 <= i && i + needle.len() <= haystack.len() && #[trigger] haystack.subrange(
            i,
            i + needle.len(),
        ) == needle
}

/// Relies on `str::contains` with a string pattern: whether `needle` occurs in
/// `haystack`.
#[verifier::external_body]
fn contains_str(haystack: &str, needle: &str) -> (r: bool)
    ensures
        r == has_substring(haystack@, needle@),
{
    haystack.contains(needle)
}

/// Descriptive information about a preview.
#[derive(Debug, Clone, Default)]
pub struct Metadata {
    /// The preview's name.
    pub label: String,
    /// An optional description of the preview.
    pub description: Option<String>,
    /// An optional group gathering related previews in the UI.
    pub group: Option<String>,
    /// Tags for filtering.
    pub tags: Vec<String>,
}

/// The text of an optional field, as zero or one strings.
pub open spec fn optional_text(s: Option<String>) -> Seq<Seq<char>> {
    match s {
        Some(t) => seq![t@],
        None => Seq::empty(),
    }
}

/// The fields a search looks at: label, description, group, then each tag.
pub open spec fn search_fields(m: Metadata) -> Seq<Seq<char>> {
    seq![m.label@] + optional_text(m.description) + optional_text(m.group) + strings_view(m.tags@)
}

/// Some field in `fields` contains `query`.
pub open spec fn any_field_contains(fields: Seq<Seq<char>>, query: Seq<char>) -> bool {
    exists|i: int| 0 <= i < fields.len() && has_substring(#[trigger] fields[i], query)
}

/// Some lowercased search field of `m` contains `query`.
pub open spec fn entry_matches(m: Metadata, query: Seq<char>) -> bool {
    any_field_contains(search_fields(m).map_values(|s: Seq<char>| lower_of(s)), query)
}

/// Whether one of `folded`, the lowercased search fields, contains `query`.
pub fn matches_folded(folded: &Vec<String>, query: &str) -> (r: bool)
    ensures
        r == any_field_contains(strings_view(folded@), query@),
{
    let mut i: usize = 0;
    while i < folded.len()
        invariant
            0 <= i <= folded@.len(),
            forall|j: int| 0 <= j < i ==> !has_substring(#[trigger] strings_view(folded@)[j], query@),
        decreases folded@.len() - i,
    {
        if contains_str(folded[i].as_str(), query) {
            assert(has_substring(strings_view(folded@)[i as int], query@));
            return true;
        }
        i = i + 1;
    }
    false
}

impl Metadata {
    /// Metadata with the given `label` and nothing else.
    pub fn new(label: &str) -> (r: Self)
        ensures
            r.label@ == label@,
            r.description.is_none(),
            r.group.is_none(),
            r.tags@.len() == 0,
    {
        Metadata { label: label.to_owned(), description: None, group: None, tags: Vec::new() }
    }

    /// Sets the description.
    pub fn description(self, description: &str) -> (r: Self)
        ensures
            r.description.is_some() && r.description.unwrap()@ == description@,
            r.label == self.label,
            r.group == self.group,
            r.tags == self.tags,
    {
        Metadata { description: Some(description.to_owned()), ..self }
    }

    /// Sets the group.
    pub fn group(self, group: &str) -> (r: Self)
        ensures
            r.group.is_some() && r.group.unwrap()@ == group@,
            r.label == self.label,
            r.description == self.description,
            r.tags == self.tags,
    {
        Metadata { group: Some(group.to_owned()), ..self }
    }

    /// Sets the tags.
    pub fn tags(self, tags: Vec<String>) -> (r: Self)
        ensures
            r.tags == tags,
            r.label == self.label,
            r.description == self.description,
            r.group == self.group,
    {
        Metadata { tags, ..self }
    }

    /// The search fields, lowercased.
    fn folded_fields(&self) -> (r: Vec<String>)
        ensures
            strings_view(r@) == search_fields(*self).map_values(|s: Seq<char>| lower_of(s)),
    {
        let mut r: Vec<String> = Vec::new();
        r.push(lowercase(self.label.as_str()));
        if let Some(d) = &self.description {
            r.push(lowercase(d.as_str()));
        }
        if let Some(g) = &self.group {
            r.push(lowercase(g.as_str()));
        }
        let ghost head = r@;
        let ghost fixed = seq![self.label@] + optional_text(self.description) + optional_text(
            self.group,
        );
        assert(strings_view(head) =~= fixed.map_values(|s: Seq<char>| lower_of(s)));
        let mut i: usize = 0;
        while i < self.tags.len()
            invariant
                0 <= i <= self.tags@.len(),
                r@.len() == head.len() + i,
                r@.take(head.len() as int) == head,
                forall|k: int| 0 <= k < i ==> (#[trigger] r@[head.len() + k])@ == lower_of(self.tags@[k]@),
            decreases self.tags@.len() - i,
        {
            r.push(lowercase(self.tags[i].as_str()));
            proof {
                assert(r@.take(head.len() as int) =~= head);
            }
            i = i + 1;
        }
        proof {
            let all = search_fields(*self);
            assert(all =~= fixed + strings_view(self.tags@));
            assert forall|k: int| 0 <= k < r@.len() implies #[trigger] strings_view(r@)[k]
                == all.map_values(|s: Seq<char>| lower_of(s))[k] by {
                if k < head.len() {
                    assert(r@[k] == r@.take(head.len() as int)[k]);
                    assert(strings_view(head)[k] == lower_of(fixed[k]));
                } else {
                    assert(r@[head.len() + (k - head.len())]@ == lower_of(self.tags@[k - head.len()]@));
                }
            }
            assert(strings_view(r@) =~= all.map_values(|s: Seq<char>| lower_of(s)));
        }
        r
    }

    /// Whether the label, description, group or a tag contains `query` once
    /// lowercased; `query` is expected to be lowercase already.
    pub fn matches(&self, query: &str) -> (r: bool)
        ensures
            r == entry_matches(*self, query@),
    {
        let folded = self.folded_fields();
        matches_folded(&folded, query)
    }
}

} // verus!
