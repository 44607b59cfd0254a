//! The liveness index, as a mathematical map.
//!
//! The index records for each cluster the drones that have said they are
//! ready, each with the time of its last such heartbeat. A drone that says
//! it is not ready loses its record. A record is never removed for being
//! old: whether it still counts is decided when a drone is wanted.

use crate::time::Timestamp;
use vstd::prelude::*;

verus! {

/// The seconds for which a heartbeat keeps a drone schedulable.
pub const LIVENESS_WINDOW_SECS: u32 = 5;

/// Cluster name to drone identifier to time of the last ready heartbeat.
pub type LivenessIndex = Map<Seq<char>, Map<Seq<char>, Timestamp>>;

/// A heartbeat, as the index sees it.
pub struct Heartbeat {
    /// When the heartbeat arrived.
    pub time: Timestamp,
    pub cluster: Seq<char>,
    pub drone: Seq<char>,
    pub ready: bool,
}

/// The records of `cluster`; none for a cluster never heard of.
pub open spec fn drones_of(index: LivenessIndex, cluster: Seq<char>) -> Map<Seq<char>, Timestamp> {
    if index.contains_key(cluster) {
        index[cluster]
    } else {
        Map::empty()
    }
}

/// The index after the heartbeat `beat`: the cluster has an entry from now
/// on; a ready drone is recorded with the time of the heartbeat, and a drone
/// that is not ready has no record.
pub open spec fn update(index: LivenessIndex, beat: Heartbeat) -> LivenessIndex {
    let drones = drones_of(index, beat.cluster);
    index.insert(
        beat.cluster,
        if beat.ready {
            drones.insert(beat.drone, beat.time)
        } else {
            drones.remove(beat.drone)
        },
    )
}

/// The index after all of `beats`, in order.
pub open spec fn replay(index: LivenessIndex, beats: Seq<Heartbeat>) -> LivenessIndex
    decreases beats.len(),
{
    if beats.len() == 0 {
        index
    } else {
        update(replay(index, beats.drop_last()), beats.last())
    }
}

/// Whether `drone` can be scheduled on `cluster` at `now`: it has a record,
/// and the record is younger than the liveness window.
pub open spec fn is_live(index: LivenessIndex, cluster: Seq<char>, drone: Seq<char>, now: Timestamp) -> bool {
    &&& drones_of(index, cluster).contains_key(drone)
    &&& drones_of(index, cluster)[drone].spec_is_within(now, LIVENESS_WINDOW_SECS)
}

/// The drones that can be scheduled on `cluster` at `now`.
pub open spec fn live(index: LivenessIndex, cluster: Seq<char>, now: Timestamp) -> Set<Seq<char>> {
    Set::new(|drone: Seq<char>| is_live(index, cluster, drone, now))
}

/// Whether the heartbeat at position `i` of `beats` is the last word of
/// `drone` on `cluster`: it is theirs, and none of theirs follows.
pub open spec fn is_last_word(beats: Seq<Heartbeat>, i: int, cluster: Seq<char>, drone: Seq<char>) -> bool {
    &&& 0 <= i < beats.len()
    &&& beats[i].cluster == cluster
    &&& beats[i].drone == drone
    &&& forall|j: int|
        i < j < beats.len() ==> !((#[trigger] beats[j]).cluster == cluster && beats[j].drone
            == drone)
}

/// After any heartbeats, a drone has a record exactly when its last
/// heartbeat said that it was ready, and the record holds the time of that
/// heartbeat.
pub proof fn lemma_record_is_last_word(beats: Seq<Heartbeat>, cluster: Seq<char>, drone: Seq<char>)
    ensures
        ({
            let drones = drones_of(replay(Map::empty(), beats), cluster);
            &&& drones.contains_key(drone) ==> exists|i: int|
                #![trigger beats[i]]
                is_last_word(beats, i, cluster, drone) && beats[i].ready && beats[i].time
                    == drones[drone]
            &&& forall|i: int|
                #![trigger beats[i]]
                is_last_word(beats, i, cluster, drone) ==> (beats[i].ready
                    <==> drones.contains_key(drone))
        }),
    decreases beats.len(),
{
    if beats.len() > 0 {
        let earlier = beats.drop_last();
        let last = beats.last();
        let n = earlier.len() as int;
        lemma_record_is_last_word(earlier, cluster, drone);
        let before = drones_of(replay(Map::empty(), earlier), cluster);
        let drones = drones_of(replay(Map::empty(), beats), cluster);
        if last.cluster == cluster && last.drone == drone {
            assert(is_last_word(beats, n, cluster, drone));
            assert forall|i: int| #![trigger beats[i]] is_last_word(beats, i, cluster, drone) implies i
                == n by {
                if i < n {
                    assert(beats[n].cluster == cluster);
                }
            }
        } else {
            assert(drones.contains_key(drone) == before.contains_key(drone));
            assert(drones.contains_key(drone) ==> drones[drone] == before[drone]);
            assert forall|i: int| is_last_word(earlier, i, cluster, drone) implies is_last_word(
                beats,
                i,
                cluster,
                drone,
            ) by {
                assert(beats[i] == earlier[i]);
                assert forall|j: int| i < j < beats.len() implies !((#[trigger] beats[j]).cluster
                    == cluster && beats[j].drone == drone) by {
                    if j < n {
                        assert(beats[j] == earlier[j]);
                    }
                }
            }
            assert forall|i: int| is_last_word(beats, i, cluster, drone) implies is_last_word(
                earlier,
                i,
                cluster,
                drone,
            ) by {
                assert(i < n);
                assert(beats[i] == earlier[i]);
                assert forall|j: int| i < j < earlier.len() implies !((#[trigger] earlier[j]).cluster
                    == cluster && earlier[j].drone == drone) by {
                    assert(beats[j] == earlier[j]);
                }
            }
            if drones.contains_key(drone) {
                let i = choose|i: int|
                    #![trigger earlier[i]]
                    is_last_word(earlier, i, cluster, drone) && earlier[i].ready && earlier[i].time
                        == before[drone];
                assert(is_last_word(beats, i, cluster, drone));
                assert(beats[i] == earlier[i]);
            }
            assert forall|i: int|
                #![trigger beats[i]]
                is_last_word(beats, i, cluster, drone) implies (beats[i].ready
                <==> drones.contains_key(drone)) by {
                assert(is_last_word(earlier, i, cluster, drone));
                assert(beats[i] == earlier[i]);
            }
        }
    }
}

/// A drone that can be scheduled has said that it is ready, within the
/// liveness window, and has not said anything since: in particular it has
/// not taken it back.
pub proof fn lemma_live_drone_was_ready(
    beats: Seq<Heartbeat>,
    cluster: Seq<char>,
    drone: Seq<char>,
    now: Timestamp,
)
    requires
        is_live(replay(Map::empty(), beats), cluster, drone, now),
    ensures
        exists|i: int|
            #![trigger beats[i]]
            is_last_word(beats, i, cluster, drone) && beats[i].ready
                && beats[i].time.spec_is_within(now, LIVENESS_WINDOW_SECS),
{
    lemma_record_is_last_word(beats, cluster, drone);
    let drones = drones_of(replay(Map::empty(), beats), cluster);
    let i = choose|i: int|
        #![trigger beats[i]]
        is_last_word(beats, i, cluster, drone) && beats[i].ready && beats[i].time == drones[drone];
    assert(is_last_word(beats, i, cluster, drone) && beats[i].ready
        && beats[i].time.spec_is_within(now, LIVENESS_WINDOW_SECS));
}

/// A drone that says it is ready and then that it is not leaves the index
/// as a drone does that only says it is not ready: without a record.
pub proof fn lemma_ready_then_not_ready(
    index: LivenessIndex,
    cluster: Seq<char>,
    drone: Seq<char>,
    first: Timestamp,
    second: Timestamp,
)
    ensures
        update(
            update(index, Heartbeat { time: first, cluster, drone, ready: true }),
            Heartbeat { time: second, cluster, drone, ready: false },
        ) == update(index, Heartbeat { time: second, cluster, drone, ready: false }),
        !drones_of(
            update(
                update(index, Heartbeat { time: first, cluster, drone, ready: true }),
                Heartbeat { time: second, cluster, drone, ready: false },
            ),
            cluster,
        ).contains_key(drone),
{
    let ready = Heartbeat { time: first, cluster, drone, ready: true };
    let not_ready = Heartbeat { time: second, cluster, drone, ready: false };
    let once = update(index, ready);
    assert(drones_of(once, cluster).remove(drone) =~= drones_of(index, cluster).remove(drone));
    assert(update(once, not_ready) =~= update(index, not_ready));
}

/// A drone never heard of, on a cluster that is known, that says it is
/// ready and then that it is not, leaves the index as it found it.
pub proof fn lemma_ready_then_not_ready_restores(
    index: LivenessIndex,
    cluster: Seq<char>,
    drone: Seq<char>,
    first: Timestamp,
    second: Timestamp,
)
    requires
        index.contains_key(cluster),
        !index[cluster].contains_key(drone),
    ensures
        update(
            update(index, Heartbeat { time: first, cluster, drone, ready: true }),
            Heartbeat { time: second, cluster, drone, ready: false },
        ) == index,
{
    let ready = Heartbeat { time: first, cluster, drone, ready: true };
    let not_ready = Heartbeat { time: second, cluster, drone, ready: false };
    let once = update(index, ready);
    assert(drones_of(once, cluster).remove(drone) =~= index[cluster]);
    assert(update(once, not_ready) =~= index);
}

/// Whatever the cluster, a drone never heard of that says it is ready and
/// then that it is not is as schedulable afterwards as before: not at all;
/// and every other drone is as schedulable as before.
pub proof fn lemma_ready_then_not_ready_schedules_alike(
    index: LivenessIndex,
    cluster: Seq<char>,
    drone: Seq<char>,
    first: Timestamp,
    second: Timestamp,
    on: Seq<char>,
    now: Timestamp,
)
    requires
        !drones_of(index, cluster).contains_key(drone),
    ensures
        live(
            update(
                update(index, Heartbeat { time: first, cluster, drone, ready: true }),
                Heartbeat { time: second, cluster, drone, ready: false },
            ),
            on,
            now,
        ) == live(index, on, now),
{
    let ready = Heartbeat { time: first, cluster, drone, ready: true };
    let not_ready = Heartbeat { time: second, cluster, drone, ready: false };
    let once = update(index, ready);
    let twice = update(once, not_ready);
    assert(drones_of(once, cluster).remove(drone) =~= drones_of(index, cluster));
    assert(drones_of(twice, cluster) == drones_of(index, cluster));
    assert(drones_of(twice, on) == drones_of(index, on));
    assert(live(twice, on, now) =~= live(index, on, now));
}

} // verus!
