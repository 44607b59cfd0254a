//! Maps of std that are keyed by text.

use std::collections::HashMap;
use vstd::prelude::*;

verus! {

/// `HashMap::insert` of std, for a map keyed by `String`: afterwards the map
/// holds the value under the key, and its other entries are as before.
#[verifier::external_body]
pub(crate) fn insert_entry<V>(map: &mut HashMap<String, V>, key: String, value: V)
    ensures
        final(map)@ == old(map)@.insert(key, value),
{
    map.insert(key, value);
}

/// Whether `map` holds `value` under the text `key`, and nothing else.
pub open spec fn holds_only(map: Map<String, String>, key: Seq<char>, value: Seq<char>) -> bool {
    exists|k: String| #[trigger] k@ == key && map.dom() == set![k] && map[k]@ == value
}

/// A map that holds `value` under `key` and nothing else.
pub fn single_entry(key: &str, value: &str) -> (map: HashMap<String, String>)
    ensures
        holds_only(map@, key@, value@),
{
    let mut map: HashMap<String, String> = HashMap::new();
    let k = key.to_owned();
    let v = value.to_owned();
    insert_entry(&mut map, k, v);
    assert(map@.dom() =~= set![k]);
    assert(k@ == key@);
    map
}

} // verus!
