//! Parameter types shared by many requests: metadata and list pagination.

use crate::form::{bracket_key, int_field, pairs_view, push_int, push_pair, FormPair};
use vstd::prelude::*;

verus! {

/// Entries as pairs of character sequences.
pub type EntriesView = Seq<(Seq<char>, Seq<char>)>;

/// No key occurs twice.
pub open spec fn keys_unique(e: EntriesView) -> bool {
    forall|i: int, j: int|
        0 <= i < e.len() && 0 <= j < e.len() && i != j ==> #[trigger] e[i].0 != #[trigger] e[j].0
}

/// `e` with `key` set to `value`: in place of its first occurrence where the
/// key is present, appended otherwise.
pub open spec fn with_entry(e: EntriesView, key: Seq<char>, value: Seq<char>) -> EntriesView {
    if exists|i: int| 0 <= i < e.len() && e[i].0 == key {
        let i = choose|i: int|
            0 <= i < e.len() && e[i].0 == key && forall|j: int| 0 <= j < i ==> e[j].0 != key;
        e.update(i, (key, value))
    } else {
        e.push((key, value))
    }
}

/// The `metadata[key]=value` pairs of the entries, in order.
pub open spec fn metadata_pairs(e: EntriesView) -> EntriesView {
    e.map_values(|p: (Seq<char>, Seq<char>)| (bracket_key("metadata"@, p.0), p.1))
}

/// Arbitrary key/value pairs attached to an object, kept in insertion order
/// with each key at most once.
#[derive(Debug, Clone)]
pub struct Metadata {
    entries: Vec<(String, String)>,
}

impl View for Metadata {
    type V = EntriesView;

    closed spec fn view(&self) -> EntriesView {
        self.entries@.map_values(|p: (String, String)| (p.0@, p.1@))
    }
}

impl Metadata {
    /// An empty set of entries.
    pub fn new() -> (r: Self)
        ensures
            r@ == Seq::<(Seq<char>, Seq<char>)>::empty(),
    {
        let r = Metadata { entries: Vec::new() };
        assert(r@ =~= Seq::<(Seq<char>, Seq<char>)>::empty());
        r
    }

    /// The number of entries.
    pub fn len(&self) -> (r: usize)
        ensures
            r == self@.len(),
    {
        self.entries.len()
    }

    /// The entries, in insertion order.
    pub fn entries(&self) -> (r: &Vec<(String, String)>)
        ensures
            r@.map_values(|p: (String, String)| (p.0@, p.1@)) == self@,
    {
        &self.entries
    }

    /// Sets `key` to `value`, replacing an earlier value of the same key.
    pub fn insert(&mut self, key: &str, value: &str)
        ensures
            final(self)@ == with_entry(old(self)@, key@, value@),
            keys_unique(old(self)@) ==> keys_unique(final(self)@),
    {
        let ghost e = self@;
        let wanted = String::from_str(key);
        let n = self.entries.len();
        let mut i: usize = 0;
        while i < n
            invariant
                n == self.entries@.len(),
                wanted@ == key@,
                e == self@,
                e == old(self)@,
                i <= n,
                forall|j: int| 0 <= j < i ==> e[j].0 != key@,
            decreases n - i,
        {
            assert(e[i as int] == (self.entries@[i as int].0@, self.entries@[i as int].1@));
            if self.entries[i].0 == wanted {
                assert(e[i as int].0 == key@);
                let ghost c = choose|j: int|
                    0 <= j < e.len() && e[j].0 == key@ && forall|k: int| 0 <= k < j ==> e[k].0 != key@;
                assert(c == i as int) by {
                    if c < i {
                    } else if c > i {
                        assert(e[i as int].0 == key@);
                    }
                };
                let pair = (String::from_str(key), String::from_str(value));
                self.entries.set(i, pair);
                assert(self@ =~= e.update(i as int, (key@, value@)));
                assert(with_entry(e, key@, value@) == e.update(i as int, (key@, value@)));
                assert(keys_unique(e) ==> keys_unique(self@)) by {
                    if keys_unique(e) {
                        assert forall|a: int, b: int|
                            0 <= a < self@.len() && 0 <= b < self@.len() && a != b
                            implies #[trigger] self@[a].0 != #[trigger] self@[b].0 by {
                            assert(e[a].0 != e[b].0);
                        }
                    }
                };
                return;
            }
            i = i + 1;
        }
        self.entries.push((String::from_str(key), String::from_str(value)));
        assert(self@ =~= e.push((key@, value@)));
        assert(keys_unique(e) ==> keys_unique(self@)) by {
            if keys_unique(e) {
                assert forall|a: int, b: int|
                    0 <= a < self@.len() && 0 <= b < self@.len() && a != b
                    implies #[trigger] self@[a].0 != #[trigger] self@[b].0 by {
                    if a < e.len() && b < e.len() {
                        assert(e[a].0 != e[b].0);
                    }
                }
            }
        };
    }

    /// Appends the `metadata[key]=value` pairs of the entries.
    pub fn push_pairs(&self, pairs: &mut Vec<FormPair>)
        ensures
            pairs_view(final(pairs)@) == pairs_view(old(pairs)@) + metadata_pairs(self@),
    {
        let ghost start = pairs_view(pairs@);
        let n = self.entries.len();
        let mut i: usize = 0;
        while i < n
            invariant
                n == self.entries@.len(),
                i <= n,
                pairs_view(pairs@) == start + metadata_pairs(self@).take(i as int),
            decreases n - i,
        {
            let mut k = String::from_str("metadata");
            k.append("[");
            k.append(self.entries[i].0.as_str());
            k.append("]");
            let v = self.entries[i].1.clone();
            assert(metadata_pairs(self@)[i as int] == (k@, v@));
            push_pair(pairs, k, v);
            assert(metadata_pairs(self@).take(i + 1) =~= metadata_pairs(self@).take(i as int)
                + seq![(k@, v@)]);
            i = i + 1;
        }
        assert(metadata_pairs(self@).take(n as int) =~= metadata_pairs(self@));
    }
}

/// The entries of optional metadata; none when it is absent.
pub open spec fn entries_of(metadata: Option<Metadata>) -> EntriesView {
    match metadata {
        Some(m) => m@,
        None => Seq::empty(),
    }
}

/// The form pairs of optional metadata.
pub open spec fn metadata_form(metadata: Option<Metadata>) -> EntriesView {
    metadata_pairs(entries_of(metadata))
}

/// Appends the pairs of optional metadata.
pub fn push_metadata(pairs: &mut Vec<FormPair>, metadata: &Option<Metadata>)
    ensures
        pairs_view(final(pairs)@) == pairs_view(old(pairs)@) + metadata_form(*metadata),
{
    match metadata {
        Some(m) => m.push_pairs(pairs),
        None => {
            assert(metadata_form(*metadata) =~= Seq::empty());
            assert(pairs_view(old(pairs)@) + Seq::<(Seq<char>, Seq<char>)>::empty()
                =~= pairs_view(old(pairs)@));
        },
    }
}

/// Sets `key` in optional metadata, creating it when absent.
pub fn set_metadata(metadata: &mut Option<Metadata>, key: &str, value: &str)
    ensures
        *final(metadata) matches Some(m) && m@ == with_entry(entries_of(*old(metadata)), key@, value@),
        keys_unique(entries_of(*old(metadata))) ==> keys_unique(entries_of(*final(metadata))),
{
    match metadata {
        Some(m) => m.insert(key, value),
        None => {
            let mut m = Metadata::new();
            m.insert(key, value);
            *metadata = Some(m);
        },
    }
}

/// Common parameters of list requests with pagination.
#[derive(Debug, Clone)]
pub struct ListParams {
    /// Maximum number of items to return (server default 10, at most 100).
    pub limit: Option<i64>,
    /// Offset for pagination.
    pub offset: Option<i64>,
    /// Only items created at or after this Unix timestamp.
    pub since: Option<i64>,
    /// Only items created at or before this Unix timestamp.
    pub until: Option<i64>,
}

/// The query pairs of pagination parameters.
pub open spec fn list_pairs(limit: Option<i64>, offset: Option<i64>, since: Option<i64>, until: Option<i64>) -> EntriesView {
    int_field("limit"@, limit) + int_field("offset"@, offset) + int_field("since"@, since)
        + int_field("until"@, until)
}

impl ListParams {
    /// Parameters with nothing set.
    pub fn new() -> (r: Self)
        ensures
            r.limit is None && r.offset is None && r.since is None && r.until is None,
    {
        ListParams { limit: None, offset: None, since: None, until: None }
    }

    /// Sets the maximum number of items to return.
    pub fn limit(self, limit: i64) -> (r: Self)
        ensures
            r == (ListParams { limit: Some(limit), ..self }),
    {
        ListParams { limit: Some(limit), ..self }
    }

    /// Sets the pagination offset.
    pub fn offset(self, offset: i64) -> (r: Self)
        ensures
            r == (ListParams { offset: Some(offset), ..self }),
    {
        ListParams { offset: Some(offset), ..self }
    }

    /// Sets the lower bound on the creation time.
    pub fn since(self, since: i64) -> (r: Self)
        ensures
            r == (ListParams { since: Some(since), ..self }),
    {
        ListParams { since: Some(since), ..self }
    }

    /// Sets the upper bound on the creation time.
    pub fn until(self, until: i64) -> (r: Self)
        ensures
            r == (ListParams { until: Some(until), ..self }),
    {
        ListParams { until: Some(until), ..self }
    }

    /// The query pairs of the set parameters.
    pub fn form_pairs(&self) -> (r: Vec<FormPair>)
        ensures
            pairs_view(r@) == list_pairs(self.limit, self.offset, self.since, self.until),
    {
        let mut pairs: Vec<FormPair> = Vec::new();
        assert(pairs_view(pairs@) =~= Seq::<(Seq<char>, Seq<char>)>::empty());
        push_int(&mut pairs, "limit", self.limit);
        push_int(&mut pairs, "offset", self.offset);
        push_int(&mut pairs, "since", self.since);
        push_int(&mut pairs, "until", self.until);
        assert(pairs_view(pairs@) =~= list_pairs(self.limit, self.offset, self.since, self.until));
        pairs
    }
}

impl Default for ListParams {
    fn default() -> (r: Self)
        ensures
            r.limit is None && r.offset is None && r.since is None && r.until is None,
    {
        ListParams::new()
    }
}

} // verus!
