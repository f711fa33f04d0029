//! The JSON layer of the metadata sidecar. The sidecar is a JSON object
//! whose values are all strings, so it travels through `serde_json` as a
//! map of strings; what the serializer and the parser return is named
//! here, and everything the library decides about the fields is verified
//! on the plain pairs that come back.

use vstd::prelude::*;

verus! {

/// What `serde_json::to_string` returns for a map of strings.
pub uninterp spec fn json_obj_of(m: Map<Seq<char>, Seq<char>>) -> Seq<char>;

/// What `serde_json::from_str` yields on a string: the parsed map when
/// the input is a JSON object whose values are all strings, nothing
/// otherwise.
pub uninterp spec fn json_obj_parse(s: Seq<char>) -> Option<Map<Seq<char>, Seq<char>>>;

/// The map named by a list of key-value pairs; a later pair wins.
pub open spec fn pairs_to_map(pairs: Seq<(String, String)>) -> Map<Seq<char>, Seq<char>>
    decreases pairs.len(),
{
    if pairs.len() == 0 {
        Map::empty()
    } else {
        pairs_to_map(pairs.drop_last()).insert(pairs.last().0@, pairs.last().1@)
    }
}

/// Relies on `serde_json::to_string` on a `std::collections::BTreeMap`
/// of strings: the result is the JSON serialization of exactly the
/// given entries, a pure function of the map. Serializing a map whose
/// keys and values are strings cannot fail, so the call succeeds.
#[verifier::external_body]
pub(crate) fn json_obj_to_string(
    k1: &str,
    v1: &str,
    k2: &str,
    v2: &str,
    k3: &str,
    v3: &str,
    k4: &str,
    v4: &str,
) -> (r: Result<String, String>)
    ensures
        r is Ok,
        r matches Ok(out) ==> out@ == json_obj_of(
            Map::empty().insert(k1@, v1@).insert(k2@, v2@).insert(k3@, v3@).insert(k4@, v4@),
        ),
{
    let mut m = std::collections::BTreeMap::new();
    m.insert(k1.to_owned(), v1.to_owned());
    m.insert(k2.to_owned(), v2.to_owned());
    m.insert(k3.to_owned(), v3.to_owned());
    m.insert(k4.to_owned(), v4.to_owned());
    serde_json::to_string(&m).map_err(|e| e.to_string())
}

/// Relies on `serde_json::from_str` into a `std::collections::BTreeMap`
/// of strings: it accepts exactly the JSON objects whose values are all
/// strings, its result is a pure function of the input, the map it
/// yields has pairwise distinct keys, and on the serialization of such
/// a map it recovers exactly that map.
#[verifier::external_body]
pub(crate) fn json_obj_from_str(s: &str) -> (r: Result<Vec<(String, String)>, String>)
    ensures
        r matches Ok(v) ==> json_obj_parse(s@) == Some(pairs_to_map(v@)),
        r matches Err(e) ==> json_obj_parse(s@) is None,
        r matches Ok(v) ==> forall|i: int, j: int|
            0 <= i < j < v@.len() ==> (#[trigger] v@[i]).0@ != (#[trigger] v@[j]).0@,
        r matches Ok(v) ==> forall|m: Map<Seq<char>, Seq<char>>|
            (m.dom().finite() && s@ == #[trigger] json_obj_of(m)) ==> pairs_to_map(v@) == m,
        r matches Err(e) ==> forall|m: Map<Seq<char>, Seq<char>>|
            m.dom().finite() ==> s@ != #[trigger] json_obj_of(m),
{
    match serde_json::from_str::<std::collections::BTreeMap<String, String>>(s) {
        Ok(m) => Ok(m.into_iter().collect()),
        Err(e) => Err(e.to_string()),
    }
}

/// Each pair's key is in the named map, at that pair's value, as long
/// as the keys are pairwise distinct.
proof fn lemma_pairs_to_map_index(pairs: Seq<(String, String)>, i: int)
    requires
        0 <= i < pairs.len(),
        forall|a: int, b: int|
            0 <= a < b < pairs.len() ==> (#[trigger] pairs[a]).0@ != (#[trigger] pairs[b]).0@,
    ensures
        pairs_to_map(pairs).contains_key(pairs[i].0@),
        pairs_to_map(pairs)[pairs[i].0@] == pairs[i].1@,
    decreases pairs.len(),
{
    if i < pairs.len() - 1 {
        lemma_pairs_to_map_index(pairs.drop_last(), i);
    }
}

/// A key of the named map comes from some pair.
proof fn lemma_pairs_to_map_dom(pairs: Seq<(String, String)>, k: Seq<char>)
    requires
        pairs_to_map(pairs).contains_key(k),
    ensures
        exists|i: int| 0 <= i < pairs.len() && (#[trigger] pairs[i]).0@ == k,
    decreases pairs.len(),
{
    if pairs.len() > 0 && pairs.last().0@ != k {
        lemma_pairs_to_map_dom(pairs.drop_last(), k);
    }
}

/// Finds the value stored under `key`, against the map the pairs name.
pub(crate) fn lookup_pair<'a>(pairs: &'a Vec<(String, String)>, key: &String) -> (r: Option<&'a String>)
    requires
        forall|a: int, b: int|
            0 <= a < b < pairs@.len() ==> (#[trigger] pairs@[a]).0@ != (#[trigger] pairs@[b]).0@,
    ensures
        match r {
            Some(v) => pairs_to_map(pairs@).contains_key(key@) && v@ == pairs_to_map(pairs@)[key@],
            None => !pairs_to_map(pairs@).contains_key(key@),
        },
{
    let mut i: usize = 0;
    while i < pairs.len()
        invariant
            0 <= i <= pairs@.len(),
            forall|a: int, b: int|
                0 <= a < b < pairs@.len()
                    ==> (#[trigger] pairs@[a]).0@ != (#[trigger] pairs@[b]).0@,
            forall|j: int| 0 <= j < i ==> (#[trigger] pairs@[j]).0@ != key@,
        decreases pairs@.len() - i,
    {
        if pairs[i].0 == *key {
            proof {
                lemma_pairs_to_map_index(pairs@, i as int);
            }
            return Some(&pairs[i].1);
        }
        i += 1;
    }
    proof {
        if pairs_to_map(pairs@).contains_key(key@) {
            lemma_pairs_to_map_dom(pairs@, key@);
        }
    }
    None
}

} // verus!
