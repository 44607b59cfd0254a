//! The concurrent maps that hold the library's shared state.
//!
//! The maps are `DashMap`s. Verus does not look inside them: what a map holds
//! has a name, and each operation that the library uses is stated over that
//! name. All of them take the map by unique reference where they change it, so
//! that nobody else changes it meanwhile.

use dashmap::DashMap;
use vstd::prelude::*;

verus! {

/// `DashMap` of dashmap: a hash map that can be shared between threads. Verus
/// sees nothing inside it.
#[verifier::external_type_specification]
#[verifier::external_body]
#[verifier::reject_recursive_types(K)]
#[verifier::reject_recursive_types(V)]
#[verifier::reject_recursive_types(S)]
pub struct ExDashMap<K, V, S>(DashMap<K, V, S>);

/// The backends that a registry holds, each by the text of its identifier.
pub uninterp spec fn members(registry: DashMap<String, ()>) -> Set<Seq<char>>;

/// `DashMap::new`: a map without entries.
#[verifier::external_body]
pub(crate) fn registry_new() -> (registry: DashMap<String, ()>)
    ensures
        members(registry) == Set::<Seq<char>>::empty(),
{
    DashMap::new()
}

/// `DashMap::insert`: afterwards the map holds the key; its other entries
/// are as before.
#[verifier::external_body]
pub(crate) fn registry_insert(registry: &mut DashMap<String, ()>, id: &str)
    ensures
        members(*final(registry)) == members(*old(registry)).insert(id@),
{
    registry.insert(id.to_string(), ());
}

/// `DashMap::remove`: afterwards the map does not hold the key; its other
/// entries are as before.
#[verifier::external_body]
pub(crate) fn registry_remove(registry: &mut DashMap<String, ()>, id: &str)
    ensures
        members(*final(registry)) == members(*old(registry)).remove(id@),
{
    registry.remove(id);
}

/// `DashMap::contains_key`: whether the map holds the key.
#[verifier::external_body]
pub(crate) fn registry_contains(registry: &DashMap<String, ()>, id: &str) -> (held: bool)
    ensures
        held == members(*registry).contains(id@),
{
    registry.contains_key(id)
}


/// The seconds since the epoch and the nanoseconds after them.
pub type TimeRecord = (i64, u32);

/// The liveness records that an index holds: for each cluster, by the text
/// of its name, the drones heard of, by the text of their identifiers, each
/// with the seconds and nanoseconds of the time recorded for it.
pub uninterp spec fn drone_times(index: DashMap<String, DashMap<String, TimeRecord>>) -> Map<
    Seq<char>,
    Map<Seq<char>, TimeRecord>,
>;

/// The records of one cluster; none for a cluster that has no entry.
pub open spec fn cluster_times(
    times: Map<Seq<char>, Map<Seq<char>, TimeRecord>>,
    cluster: Seq<char>,
) -> Map<Seq<char>, TimeRecord> {
    if times.contains_key(cluster) {
        times[cluster]
    } else {
        Map::empty()
    }
}

/// Whether `list` holds each record of `drones` once, and nothing else.
pub open spec fn lists(list: Seq<(String, TimeRecord)>, drones: Map<Seq<char>, TimeRecord>) -> bool {
    &&& forall|i: int|
        0 <= i < list.len() ==> drones.contains_key((#[trigger] list[i]).0@) && drones[list[i].0@]
            == list[i].1
    &&& forall|drone: Seq<char>| #[trigger]
        drones.contains_key(drone) ==> exists|i: int|
            0 <= i < list.len() && (#[trigger] list[i]).0@ == drone
    &&& forall|i: int, j: int|
        0 <= i < j < list.len() ==> (#[trigger] list[i]).0@ != (#[trigger] list[j]).0@
}

/// `DashMap::new`: a map without entries.
#[verifier::external_body]
pub(crate) fn index_new() -> (created: DashMap<String, DashMap<String, TimeRecord>>)
    ensures
        drone_times(created) == (Map::<Seq<char>, Map<Seq<char>, TimeRecord>>::empty()),
{
    DashMap::new()
}

/// `DashMap::entry`, `Entry::or_default` and, on the map of the cluster that
/// these give, `DashMap::insert`: the cluster has an entry afterwards, made
/// empty where it had none, and in it the drone has the given time. Nothing
/// else changes.
#[verifier::external_body]
pub(crate) fn index_insert(
    index: &mut DashMap<String, DashMap<String, TimeRecord>>,
    cluster: &str,
    drone: &str,
    time: TimeRecord,
)
    ensures
        drone_times(*final(index)) == drone_times(*old(index)).insert(
            cluster@,
            cluster_times(drone_times(*old(index)), cluster@).insert(drone@, time),
        ),
{
    index.entry(cluster.to_string()).or_default().insert(drone.to_string(), time);
}

/// `DashMap::entry`, `Entry::or_default` and, on the map of the cluster that
/// these give, `DashMap::remove`: the cluster has an entry afterwards, made
/// empty where it had none, and in it the drone has no record. Nothing else
/// changes.
#[verifier::external_body]
pub(crate) fn index_remove(
    index: &mut DashMap<String, DashMap<String, TimeRecord>>,
    cluster: &str,
    drone: &str,
)
    ensures
        drone_times(*final(index)) == drone_times(*old(index)).insert(
            cluster@,
            cluster_times(drone_times(*old(index)), cluster@).remove(drone@),
        ),
{
    index.entry(cluster.to_string()).or_default().remove(drone);
}

/// `DashMap::get` and, on the map of the cluster that it gives,
/// `DashMap::iter`: nothing for a cluster without entry, else the records of
/// the cluster, each once. The order in which they come is left open.
#[verifier::external_body]
pub(crate) fn index_entries(
    index: &DashMap<String, DashMap<String, TimeRecord>>,
    cluster: &str,
) -> (entries: Option<Vec<(String, TimeRecord)>>)
    ensures
        entries is Some <==> drone_times(*index).contains_key(cluster@),
        entries matches Some(list) ==> lists(list@, drone_times(*index)[cluster@]),
{
    index.get(cluster).map(|drones| drones.iter().map(|d| (d.key().clone(), *d.value())).collect())
}

} // verus!
