use crate::text::{chars_of, contains_chars, contains_text};
use vstd::pervasive::cloned;
use vstd::prelude::*;

verus! {

/// What a named field of a record holds, as far as the search can read it.
#[derive(Debug)]
pub enum FieldValue {
    /// A text.
    Text(String),
    /// A text that may be absent.
    Optional(Option<String>),
    /// Anything that is not a text, such as a number.
    Other,
}

impl FieldValue {
    /// The text of the field, where it has one.
    pub open spec fn text(self) -> Option<Seq<char>> {
        match self {
            FieldValue::Text(s) => Some(s@),
            FieldValue::Optional(Some(s)) => Some(s@),
            FieldValue::Optional(None) => None,
            FieldValue::Other => None,
        }
    }

    /// Whether the field has a text that contains `keyword`.
    pub fn contains(&self, keyword: &Vec<char>) -> (b: bool)
        ensures
            b == text_matches(self.text(), keyword@),
    {
        match self {
            FieldValue::Text(s) => contains_chars(&chars_of(s.as_str()), keyword),
            FieldValue::Optional(Some(s)) => contains_chars(&chars_of(s.as_str()), keyword),
            FieldValue::Optional(None) => false,
            FieldValue::Other => false,
        }
    }
}

/// A field matches when it has a text and `keyword` is a contiguous part of
/// that text, case for case.
pub open spec fn text_matches(text: Option<Seq<char>>, keyword: Seq<char>) -> bool {
    text is Some && contains_text(text->0, keyword)
}

/// A record matches when any of its fields does.
pub open spec fn fields_match(texts: Seq<Option<Seq<char>>>, keyword: Seq<char>) -> bool {
    exists|i: int| 0 <= i < texts.len() && text_matches(#[trigger] texts[i], keyword)
}

/// Whether any field of a record has a text.
pub open spec fn has_text(texts: Seq<Option<Seq<char>>>) -> bool {
    exists|f: int| 0 <= f < texts.len() && (#[trigger] texts[f]) is Some
}

/// The texts of named fields, in order.
pub open spec fn pair_texts(pairs: Seq<(String, FieldValue)>) -> Seq<Option<Seq<char>>> {
    Seq::new(pairs.len(), |i: int| pairs[i].1.text())
}

/// A record whose named fields the search can list.
pub trait Searchable {
    /// The text of each field of the record, `None` for a field without one.
    spec fn field_texts(&self) -> Seq<Option<Seq<char>>>;

    /// The fields of the record, each with its name.
    fn field_pairs(&self) -> (pairs: Vec<(String, FieldValue)>)
        ensures
            pair_texts(pairs@) == self.field_texts(),
    ;
}

/// Whether any of `pairs` has a text that contains `keyword`.
pub fn any_field_contains(pairs: &Vec<(String, FieldValue)>, keyword: &Vec<char>) -> (b: bool)
    ensures
        b == fields_match(pair_texts(pairs@), keyword@),
{
    let mut i: usize = 0;
    while i < pairs.len()
        invariant
            i <= pairs.len(),
            forall|k: int| 0 <= k < i ==> !text_matches(#[trigger] pair_texts(pairs@)[k], keyword@),
        decreases pairs.len() - i,
    {
        if pairs[i].1.contains(keyword) {
            assert(text_matches(pair_texts(pairs@)[i as int], keyword@));
            return true;
        }
        i = i + 1;
    }
    false
}

/// The positions among the first `n` records of those that match `keyword`,
/// in ascending order.
pub open spec fn matching_indices<T: Searchable>(
    records: Seq<T>,
    keyword: Seq<char>,
    n: nat,
) -> Seq<int>
    decreases n,
{
    if n == 0 {
        Seq::empty()
    } else {
        let earlier = matching_indices(records, keyword, (n - 1) as nat);
        if fields_match(records[n - 1].field_texts(), keyword) {
            earlier.push(n - 1)
        } else {
            earlier
        }
    }
}

/// The records that have a field whose text contains `keyword`: a copy of
/// each, in the order in which they stand in `hosts`, which is left as it is.
pub fn search_vec<T>(hosts: &Vec<T>, keyword: &str) -> (found: Vec<T>) where T: Clone + Searchable
    ensures
        found.len() == matching_indices(hosts@, keyword@, hosts.len() as nat).len(),
        forall|j: int|
            0 <= j < found.len() ==> cloned(
                hosts[#[trigger] matching_indices(hosts@, keyword@, hosts.len() as nat)[j]],
                found[j],
            ),
{
    let needle = chars_of(keyword);
    let mut found: Vec<T> = Vec::new();
    let mut i: usize = 0;
    while i < hosts.len()
        invariant
            i <= hosts.len(),
            needle@ == keyword@,
            found.len() == matching_indices(hosts@, keyword@, i as nat).len(),
            forall|j: int|
                0 <= j < found.len() ==> cloned(
                    hosts[#[trigger] matching_indices(hosts@, keyword@, i as nat)[j]],
                    found[j],
                ),
            forall|j: int|
                0 <= j < found.len() ==> 0 <= #[trigger] matching_indices(
                    hosts@,
                    keyword@,
                    i as nat,
                )[j] < i,
        decreases hosts.len() - i,
    {
        let pairs = hosts[i].field_pairs();
        if any_field_contains(&pairs, &needle) {
            let copy = hosts[i].clone();
            found.push(copy);
        }
        i = i + 1;
    }
    found
}

/// What a search finds stands in the collection, each record matches, and the
/// order of the collection is kept.
pub proof fn law_search_selects_in_order<T: Searchable>(
    records: Seq<T>,
    keyword: Seq<char>,
    n: nat,
)
    requires
        n <= records.len(),
    ensures
        forall|j: int|
            0 <= j < matching_indices(records, keyword, n).len() ==> {
                let at = #[trigger] matching_indices(records, keyword, n)[j];
                0 <= at < n && fields_match(records[at].field_texts(), keyword)
            },
        forall|j: int, k: int|
            0 <= j < k < matching_indices(records, keyword, n).len() ==> matching_indices(
                records,
                keyword,
                n,
            )[j] < matching_indices(records, keyword, n)[k],
    decreases n,
{
    if n > 0 {
        law_search_selects_in_order(records, keyword, (n - 1) as nat);
        let earlier = matching_indices(records, keyword, (n - 1) as nat);
        let all = matching_indices(records, keyword, n);
        assert forall|j: int| 0 <= j < all.len() implies {
            let at = #[trigger] all[j];
            0 <= at < n && fields_match(records[at].field_texts(), keyword)
        } by {
            if j < earlier.len() {
                assert(all[j] == earlier[j]);
            }
        }
        assert forall|j: int, k: int| 0 <= j < k < all.len() implies all[j] < all[k] by {
            assert(all[j] == earlier[j]);
            if k < earlier.len() {
                assert(all[k] == earlier[k]);
            }
        }
    }
}

/// A search leaves out no record that matches.
pub proof fn law_search_finds_every_match<T: Searchable>(
    records: Seq<T>,
    keyword: Seq<char>,
    n: nat,
    at: int,
)
    requires
        0 <= at < n <= records.len(),
        fields_match(records[at].field_texts(), keyword),
    ensures
        matching_indices(records, keyword, n).contains(at),
    decreases n,
{
    let earlier = matching_indices(records, keyword, (n - 1) as nat);
    if at == n - 1 {
        assert(earlier.push(n - 1)[earlier.len() as int] == at);
    } else {
        law_search_finds_every_match(records, keyword, (n - 1) as nat, at);
        let j = choose|j: int| 0 <= j < earlier.len() && earlier[j] == at;
        assert(matching_indices(records, keyword, n)[j] == at);
    }
}

/// The empty keyword is part of every text, so a search for it keeps every
/// record that has a field with a text.
pub proof fn law_empty_keyword_keeps_all<T: Searchable>(records: Seq<T>, n: nat)
    requires
        n <= records.len(),
        forall|i: int| 0 <= i < n ==> has_text(#[trigger] records[i].field_texts()),
    ensures
        matching_indices(records, Seq::<char>::empty(), n) == Seq::new(n, |i: int| i),
    decreases n,
{
    let keyword = Seq::<char>::empty();
    if n > 0 {
        law_empty_keyword_keeps_all(records, (n - 1) as nat);
        let texts = records[n - 1].field_texts();
        assert(has_text(texts));
        let f = choose|f: int| 0 <= f < texts.len() && (#[trigger] texts[f]) is Some;
        assert(crate::text::occurs_at(texts[f]->0, keyword, 0)) by {
            assert(texts[f]->0.subrange(0, 0) =~= keyword);
        }
        assert(text_matches(texts[f], keyword));
        assert(fields_match(texts, keyword));
        assert(matching_indices(records, keyword, n) =~= Seq::new(n, |i: int| i));
    } else {
        assert(matching_indices(records, keyword, n) =~= Seq::new(n, |i: int| i));
    }
}

/// The records at the positions that a search selects are the records that
/// a filter by the same test keeps.
pub proof fn law_search_is_a_filter<T: Searchable>(records: Seq<T>, keyword: Seq<char>, n: nat)
    requires
        n <= records.len(),
    ensures
        Seq::new(
            matching_indices(records, keyword, n).len(),
            |j: int| records[matching_indices(records, keyword, n)[j]],
        ) == records.take(n as int).filter(|r: T| fields_match(r.field_texts(), keyword)),
    decreases n,
{
    let test = |r: T| fields_match(r.field_texts(), keyword);
    let picked = |m: nat|
        Seq::new(
            matching_indices(records, keyword, m).len(),
            |j: int| records[matching_indices(records, keyword, m)[j]],
        );
    if n == 0 {
        reveal(Seq::filter);
        assert(records.take(0).filter(test) =~= Seq::<T>::empty());
        assert(picked(0) =~= Seq::<T>::empty());
    } else {
        law_search_is_a_filter(records, keyword, (n - 1) as nat);
        let before = records.take(n - 1);
        before.lemma_filter_push(records[n - 1], test);
        assert(before.push(records[n - 1]) =~= records.take(n as int));
        if fields_match(records[n - 1].field_texts(), keyword) {
            assert(picked(n) =~= picked((n - 1) as nat).push(records[n - 1]));
        } else {
            assert(picked(n) =~= picked((n - 1) as nat));
        }
    }
}

} // verus!
