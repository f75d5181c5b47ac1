//! Record normalizer: reconciles a client-submitted data mapping against
//! the server-defined field catalog.
//!
//! This is a whitelist merge, not a union: the result holds exactly the
//! catalog's fields, in catalog order, taking the submitted value where one
//! was supplied and the catalog default otherwise. A submitted key absent
//! from the catalog is silently dropped, so a client cannot inject
//! arbitrary keys into the persisted record.

use vstd::prelude::*;

verus! {

/// An association list of named JSON values, as its abstract sequence.
pub open spec fn entries_view(s: Seq<(String, serde_json::Value)>) -> Seq<
    (Seq<char>, serde_json::Value),
> {
    s.map_values(|p: (String, serde_json::Value)| (p.0@, p.1))
}

/// The mapping an association list denotes; a repeated name takes its last
/// value, as insertion into a map would.
pub open spec fn assoc_map(s: Seq<(Seq<char>, serde_json::Value)>) -> Map<
    Seq<char>,
    serde_json::Value,
>
    decreases s.len(),
{
    if s.len() == 0 {
        Map::empty()
    } else {
        assoc_map(s.drop_last()).insert(s.last().0, s.last().1)
    }
}

/// The normalized mapping: one entry per catalog field, the submitted value
/// where present, the catalog default otherwise.
pub open spec fn normalized_map(
    submitted: Map<Seq<char>, serde_json::Value>,
    catalog: Seq<(Seq<char>, serde_json::Value)>,
) -> Map<Seq<char>, serde_json::Value>
    decreases catalog.len(),
{
    if catalog.len() == 0 {
        Map::empty()
    } else {
        let f = catalog.last();
        normalized_map(submitted, catalog.drop_last()).insert(
            f.0,
            if submitted.dom().contains(f.0) {
                submitted[f.0]
            } else {
                f.1
            },
        )
    }
}

/// A name occurs somewhere in an association list exactly when the denoted
/// mapping has it.
pub proof fn lemma_assoc_dom(s: Seq<(Seq<char>, serde_json::Value)>, k: Seq<char>)
    ensures
        assoc_map(s).dom().contains(k) <==> exists|i: int|
            0 <= i < s.len() && (#[trigger] s[i]).0 == k,
    decreases s.len(),
{
    if s.len() > 0 {
        lemma_assoc_dom(s.drop_last(), k);
        if s.last().0 == k {
            assert(s[s.len() - 1].0 == k);
        } else if exists|i: int| 0 <= i < s.len() && (#[trigger] s[i]).0 == k {
            let i = choose|i: int| 0 <= i < s.len() && (#[trigger] s[i]).0 == k;
            if i < s.len() - 1 {
                assert(s.drop_last()[i].0 == k);
            }
        }
    }
}

/// The last occurrence of a name decides its value in the denoted mapping.
pub proof fn lemma_assoc_last_match(s: Seq<(Seq<char>, serde_json::Value)>, k: Seq<char>, i: int)
    requires
        0 <= i < s.len(),
        s[i].0 == k,
        forall|j: int| i < j < s.len() ==> (#[trigger] s[j]).0 != k,
    ensures
        assoc_map(s).dom().contains(k),
        assoc_map(s)[k] == s[i].1,
    decreases s.len(),
{
    if i == s.len() - 1 {
    } else {
        assert(s.last().0 != k);
        lemma_assoc_last_match(s.drop_last(), k, i);
    }
}

/// Relies on `str`'s `PartialEq`: two string slices are equal exactly when
/// their character sequences are.
#[verifier::external_body]
pub(crate) fn str_eq(a: &str, b: &str) -> (r: bool)
    ensures
        r == (a@ == b@),
{
    a == b
}

/// Looks a name up in an association list, yielding the value its denoted
/// mapping gives it.
fn assoc_get<'a>(entries: &'a Vec<(String, serde_json::Value)>, key: &str) -> (r: Option<
    &'a serde_json::Value,
>)
    ensures
        match r {
            Some(v) => assoc_map(entries_view(entries@)).dom().contains(key@) && *v == assoc_map(
                entries_view(entries@),
            )[key@],
            None => !assoc_map(entries_view(entries@)).dom().contains(key@),
        },
{
    let ghost s = entries_view(entries@);
    let mut i: usize = entries.len();
    while i > 0
        invariant
            i <= entries.len(),
            s == entries_view(entries@),
            forall|j: int| i <= j < entries@.len() ==> (#[trigger] s[j]).0 != key@,
        decreases i,
    {
        i = i - 1;
        if str_eq(entries[i].0.as_str(), key) {
            proof {
                lemma_assoc_last_match(s, key@, i as int);
            }
            return Some(&entries[i].1);
        }
    }
    proof {
        lemma_assoc_dom(s, key@);
    }
    None
}

/// Merges a submitted data mapping against the catalog: the result has
/// exactly one entry per catalog field, in catalog order, holding the
/// submitted value where the submission has the field's name and the
/// catalog default otherwise.
pub fn normalize_data(
    submitted: &Vec<(String, serde_json::Value)>,
    catalog: &Vec<(String, serde_json::Value)>,
) -> (r: Vec<(String, serde_json::Value)>)
    ensures
        r@.len() == catalog@.len(),
        forall|i: int| 0 <= i < r@.len() ==> (#[trigger] r@[i]).0@ == catalog@[i].0@,
        assoc_map(entries_view(r@)) == normalized_map(
            assoc_map(entries_view(submitted@)),
            entries_view(catalog@),
        ),
{
    let ghost sub_map = assoc_map(entries_view(submitted@));
    let ghost cat = entries_view(catalog@);
    let mut out: Vec<(String, serde_json::Value)> = Vec::new();
    let mut i: usize = 0;
    while i < catalog.len()
        invariant
            i <= catalog@.len(),
            sub_map == assoc_map(entries_view(submitted@)),
            cat == entries_view(catalog@),
            out@.len() == i,
            forall|j: int| 0 <= j < i ==> (#[trigger] out@[j]).0@ == catalog@[j].0@,
            assoc_map(entries_view(out@)) == normalized_map(sub_map, cat.take(i as int)),
        decreases catalog@.len() - i,
    {
        let name = catalog[i].0.clone();
        let value = match assoc_get(submitted, name.as_str()) {
            Some(v) => v.clone(),
            None => catalog[i].1.clone(),
        };
        let ghost old_out = out@;
        out.push((name, value));
        proof {
            assert(entries_view(out@).drop_last() =~= entries_view(old_out));
            assert(cat.take(i + 1).drop_last() =~= cat.take(i as int));
            assert(cat.take(i + 1).last() == cat[i as int]);
        }
        i = i + 1;
    }
    proof {
        assert(cat.take(cat.len() as int) =~= cat);
    }
    out
}

/// Schema whitelist: the normalized mapping's key set equals exactly the
/// catalog's key set — submitted keys outside the catalog are dropped and
/// catalog keys missing from the submission take the catalog's default —
/// and each key's value is the submitted one where present, the default
/// otherwise.
pub proof fn lemma_normalize_whitelist(
    submitted: Map<Seq<char>, serde_json::Value>,
    catalog: Seq<(Seq<char>, serde_json::Value)>,
)
    ensures
        normalized_map(submitted, catalog).dom() =~= assoc_map(catalog).dom(),
        forall|k: Seq<char>| #[trigger]
            assoc_map(catalog).dom().contains(k) ==> normalized_map(submitted, catalog)[k] == (
            if submitted.dom().contains(k) {
                submitted[k]
            } else {
                assoc_map(catalog)[k]
            }),
    decreases catalog.len(),
{
    if catalog.len() > 0 {
        lemma_normalize_whitelist(submitted, catalog.drop_last());
    }
}

} // verus!
