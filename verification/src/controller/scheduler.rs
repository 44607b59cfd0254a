//! The scheduler of the controller: it keeps the liveness index up to date
//! and picks a drone for each backend that is asked for.

use crate::concurrent::{
    cluster_times, drone_times, index_entries, index_insert, index_new, index_remove, lists,
};
use crate::controller::liveness::{
    drones_of, is_live, live, update, Heartbeat, LivenessIndex, LIVENESS_WINDOW_SECS,
};
use crate::messages::agent::{DroneStatusMessage, SpawnRequest};
use crate::messages::scheduler::{ScheduleRequest, ScheduleResponse};
use crate::subjects::{spawn_subject, spec_spawn_subject};
use crate::random::{is_alphanumeric, pick_one};
use crate::time::Timestamp;
use crate::types::{ClusterName, DroneId, RANDOM_ID_LEN};
use dashmap::DashMap;
use vstd::prelude::*;
use vstd::string::StringExecFns;

verus! {

/// Why no drone was picked.
#[derive(Clone, Copy, Debug, PartialEq, Eq, Structural)]
pub enum SchedulerError {
    /// The cluster has no drone that was heard of as ready within the
    /// liveness window.
    NoDroneAvailable,
}

impl SchedulerError {
    pub fn to_string(&self) -> (text: String)
        ensures
            text@ == "NoDroneAvailable"@,
    {
        String::from_str("NoDroneAvailable")
    }
}

/// The seconds that a drone has to answer an order to spawn.
pub const SPAWN_TIMEOUT_SECS: u64 = 10;

/// What the scheduler does about a schedule request.
#[derive(Debug)]
pub enum SchedulerAction {
    /// Answer the client that no drone is available.
    Decline,
    /// Send `request` to the drone on `subject`, wait up to `timeout_secs`
    /// seconds for its answer, and hand the outcome to
    /// [`Scheduler::conclude`].
    Spawn { subject: String, request: SpawnRequest, timeout_secs: u64 },
}

/// The number of orders to spawn that `action` sends.
pub open spec fn spawns_sent(action: SchedulerAction) -> nat {
    match action {
        SchedulerAction::Decline => 0,
        SchedulerAction::Spawn { .. } => 1,
    }
}

/// The answer to the client when the drone's answer to the order `spawn` was
/// `answer` (`None`: it gave none in time): the backend is scheduled when
/// the drone said yes, and else no drone is available. Another drone is not
/// tried.
pub open spec fn conclusion(spawn: SpawnRequest, answer: Option<bool>) -> ScheduleResponse {
    if answer == Some(true) {
        ScheduleResponse::Scheduled {
            drone: spawn.drone_id,
            backend_id: spawn.backend_id,
            bearer_token: spawn.bearer_token,
        }
    } else {
        ScheduleResponse::NoDroneAvailable
    }
}

/// The answer that the client gets in the end, when the scheduler began with
/// `action` and the drone, if asked, answered `answer`.
pub open spec fn final_reply(action: SchedulerAction, answer: Option<bool>) -> ScheduleResponse {
    match action {
        SchedulerAction::Decline => ScheduleResponse::NoDroneAvailable,
        SchedulerAction::Spawn { request, .. } => conclusion(request, answer),
    }
}

/// A request is answered after at most one order to spawn; and where the
/// answer is that the backend is scheduled, exactly one order was sent, to
/// the drone and for the backend that the answer names.
pub proof fn lemma_one_spawn_per_scheduled(action: SchedulerAction, answer: Option<bool>)
    ensures
        spawns_sent(action) <= 1,
        final_reply(action, answer) matches ScheduleResponse::Scheduled {
            drone,
            backend_id,
            bearer_token,
        } ==> spawns_sent(action) == 1 && answer == Some(true) && (action matches SchedulerAction::Spawn {
            request,
            ..
        } && request.drone_id == drone && request.backend_id == backend_id),
{
}

/// The scheduler: the liveness index and the choice of a drone.
pub struct Scheduler {
    last_status: DashMap<String, DashMap<String, (i64, u32)>>,
}

/// The time that a record of the index holds.
pub open spec fn as_timestamp(time: (i64, u32)) -> Timestamp {
    Timestamp { secs: time.0, nanos: time.1 }
}

impl View for Scheduler {
    type V = LivenessIndex;

    closed spec fn view(&self) -> LivenessIndex {
        drone_times(self.last_status).map_values(
            |drones: Map<Seq<char>, (i64, u32)>|
                drones.map_values(|time: (i64, u32)| as_timestamp(time)),
        )
    }
}

impl Default for Scheduler {
    /// A scheduler that has heard of no drone.
    fn default() -> (scheduler: Self)
        ensures
            scheduler@ == Map::<Seq<char>, Map<Seq<char>, Timestamp>>::empty(),
    {
        let scheduler = Scheduler { last_status: index_new() };
        assert(scheduler@ =~= Map::<Seq<char>, Map<Seq<char>, Timestamp>>::empty());
        scheduler
    }
}

impl Scheduler {
    /// Takes note of a heartbeat that arrived at `timestamp`.
    ///
    /// Nobody tells the scheduler which clusters exist: a cluster has an
    /// entry from its first heartbeat on. A ready drone is recorded with
    /// `timestamp`; a drone that is not ready loses its record, if it had
    /// one.
    pub fn update_status(&mut self, timestamp: Timestamp, status: &DroneStatusMessage)
        ensures
            final(self)@ == update(
                old(self)@,
                Heartbeat {
                    time: timestamp,
                    cluster: status.cluster@,
                    drone: status.drone_id@,
                    ready: status.ready,
                },
            ),
    {
        let ghost before = drone_times(self.last_status);
        if status.ready {
            index_insert(
                &mut self.last_status,
                status.cluster.hostname(),
                status.drone_id.id(),
                (timestamp.secs, timestamp.nanos),
            );
        } else {
            index_remove(&mut self.last_status, status.cluster.hostname(), status.drone_id.id());
        }
        proof {
            let beat = Heartbeat {
                time: timestamp,
                cluster: status.cluster@,
                drone: status.drone_id@,
                ready: status.ready,
            };
            let convert = |time: (i64, u32)| as_timestamp(time);
            assert(drones_of(old(self)@, beat.cluster) =~= cluster_times(
                before,
                beat.cluster,
            ).map_values(convert));
            if status.ready {
                assert(cluster_times(before, beat.cluster).insert(
                    beat.drone,
                    (timestamp.secs, timestamp.nanos),
                ).map_values(convert) =~= drones_of(old(self)@, beat.cluster).insert(
                    beat.drone,
                    timestamp,
                ));
            } else {
                assert(cluster_times(before, beat.cluster).remove(beat.drone).map_values(convert)
                    =~= drones_of(old(self)@, beat.cluster).remove(beat.drone));
            }
            assert(self@ =~= update(old(self)@, beat));
        }
    }

    /// The drones that can be scheduled on `cluster` at
    /// `current_timestamp`, each once, in no particular order.
    pub fn live_drones(&self, cluster: &ClusterName, current_timestamp: Timestamp) -> (drones: Vec<
        DroneId,
    >)
        ensures
            forall|i: int|
                0 <= i < drones@.len() ==> live(self@, cluster@, current_timestamp).contains(
                    (#[trigger] drones@[i])@,
                ),
            forall|drone: Seq<char>| #[trigger]
                live(self@, cluster@, current_timestamp).contains(drone) ==> exists|i: int|
                    0 <= i < drones@.len() && (#[trigger] drones@[i])@ == drone,
            forall|i: int, j: int|
                0 <= i < j < drones@.len() ==> (#[trigger] drones@[i])@ != (#[trigger] drones@[j])@,
    {
        let mut drones: Vec<DroneId> = Vec::new();
        let entries = match index_entries(&self.last_status, cluster.hostname()) {
            Some(entries) => entries,
            None => {
                return drones;
            },
        };
        let ghost records = drone_times(self.last_status)[cluster@];
        let ghost index = self@;
        assert(drones_of(index, cluster@) =~= records.map_values(
            |time: (i64, u32)| as_timestamp(time),
        ));
        let mut k: usize = 0;
        while k < entries.len()
            invariant
                k <= entries@.len(),
                index == self@,
                lists(entries@, records),
                drones_of(index, cluster@) == records.map_values(
                    |time: (i64, u32)| as_timestamp(time),
                ),
                forall|i: int|
                    0 <= i < drones@.len() ==> is_live(
                        index,
                        cluster@,
                        (#[trigger] drones@[i])@,
                        current_timestamp,
                    ),
                forall|i: int|
                    0 <= i < drones@.len() ==> exists|e: int|
                        0 <= e < k && (#[trigger] entries@[e]).0@ == (#[trigger] drones@[i])@,
                forall|e: int|
                    0 <= e < k && is_live(
                        index,
                        cluster@,
                        (#[trigger] entries@[e]).0@,
                        current_timestamp,
                    ) ==> exists|i: int|
                        0 <= i < drones@.len() && (#[trigger] drones@[i])@ == entries@[e].0@,
                forall|i: int, j: int|
                    0 <= i < j < drones@.len() ==> (#[trigger] drones@[i])@ != (
                    #[trigger] drones@[j])@,
            decreases entries@.len() - k,
        {
            let entry = &entries[k];
            let time = Timestamp::new(entry.1.0, entry.1.1);
            assert(drones_of(index, cluster@)[entry.0@] == time);
            if time.is_within(current_timestamp, LIVENESS_WINDOW_SECS) {
                let ghost so_far = drones@;
                drones.push(DroneId::new(entry.0.clone()));
                proof {
                    let n = so_far.len() as int;
                    assert(drones@[n]@ == entries@[k as int].0@);
                    assert forall|i: int| 0 <= i < drones@.len() implies exists|e: int|
                        0 <= e < k + 1 && (#[trigger] entries@[e]).0@ == (#[trigger] drones@[i])@ by {
                        if i < n {
                            assert(drones@[i] == so_far[i]);
                            let e = choose|e: int|
                                0 <= e < k && (#[trigger] entries@[e]).0@ == so_far[i]@;
                            assert(entries@[e].0@ == drones@[i]@);
                        } else {
                            assert(entries@[k as int].0@ == drones@[i]@);
                        }
                    }
                    assert forall|e: int|
                        0 <= e < k + 1 && is_live(
                            index,
                            cluster@,
                            (#[trigger] entries@[e]).0@,
                            current_timestamp,
                        ) implies exists|i: int|
                        0 <= i < drones@.len() && (#[trigger] drones@[i])@ == entries@[e].0@ by {
                        if e < k {
                            let i = choose|i: int|
                                0 <= i < so_far.len() && (#[trigger] so_far[i])@ == entries@[e].0@;
                            assert(drones@[i] == so_far[i]);
                        } else {
                            assert(drones@[n]@ == entries@[e].0@);
                        }
                    }
                    assert forall|i: int, j: int| 0 <= i < j < drones@.len() implies (
                    #[trigger] drones@[i])@ != (#[trigger] drones@[j])@ by {
                        if j == n {
                            assert(drones@[i] == so_far[i]);
                            let e = choose|e: int|
                                0 <= e < k && (#[trigger] entries@[e]).0@ == so_far[i]@;
                            assert(entries@[e].0@ != entries@[k as int].0@);
                        } else {
                            assert(drones@[i] == so_far[i]);
                            assert(drones@[j] == so_far[j]);
                        }
                    }
                }
            }
            k = k + 1;
        }
        proof {
            assert forall|drone: Seq<char>| #[trigger]
                live(index, cluster@, current_timestamp).contains(drone) implies exists|i: int|
                0 <= i < drones@.len() && (#[trigger] drones@[i])@ == drone by {
                assert(records.contains_key(drone));
                let e = choose|e: int| 0 <= e < entries@.len() && (#[trigger] entries@[e]).0@ == drone;
                assert(is_live(index, cluster@, entries@[e].0@, current_timestamp));
            }
        }
        drones
    }

    /// Picks a drone for a backend on `cluster` at `current_timestamp`.
    ///
    /// Any drone that can be scheduled may be picked, and chance decides
    /// which: a placeholder for a policy that weighs the drones. Where none
    /// can be scheduled, or the cluster was never heard of, the answer is
    /// [`SchedulerError::NoDroneAvailable`].
    pub fn schedule(&self, cluster: &ClusterName, current_timestamp: Timestamp) -> (picked: Result<
        DroneId,
        SchedulerError,
    >)
        ensures
            picked matches Ok(drone) ==> is_live(self@, cluster@, drone@, current_timestamp),
            picked is Err ==> forall|drone: Seq<char>|
                !is_live(self@, cluster@, drone, current_timestamp),
            picked matches Err(error) ==> error == SchedulerError::NoDroneAvailable,
            (exists|drone: Seq<char>| is_live(self@, cluster@, drone, current_timestamp))
                ==> picked is Ok,
    {
        let drone_ids = self.live_drones(cluster, current_timestamp);
        match pick_one(&drone_ids) {
            Some(drone) => {
                let ghost i = choose|i: int| 0 <= i < drone_ids@.len() && drone_ids@[i] == *drone;
                assert(live(self@, cluster@, current_timestamp).contains(drone_ids@[i]@));
                Ok(drone.clone())
            },
            None => {
                assert forall|drone: Seq<char>| !is_live(
                    self@,
                    cluster@,
                    drone,
                    current_timestamp,
                ) by {
                    if is_live(self@, cluster@, drone, current_timestamp) {
                        assert(live(self@, cluster@, current_timestamp).contains(drone));
                    }
                }
                Err(SchedulerError::NoDroneAvailable)
            },
        }
    }

    /// Takes up a schedule request that arrived at `now`.
    ///
    /// Where no drone of the cluster can be scheduled, the client is told so
    /// at once. Else one drone is picked and ordered to spawn the backend:
    /// the order is made by [`ScheduleRequest::schedule`], which keeps the
    /// name that the request gives the backend and generates one where it
    /// gives none, and goes to the subject of that drone.
    pub fn handle_request(&self, request: &ScheduleRequest, now: Timestamp) -> (action:
        SchedulerAction)
        ensures
            action is Decline ==> forall|drone: Seq<char>|
                !is_live(self@, request.cluster@, drone, now),
            action matches SchedulerAction::Spawn { subject, request: spawn, timeout_secs } ==> {
                &&& is_live(self@, request.cluster@, spawn.drone_id@, now)
                &&& request.orders(spawn.drone_id, spawn.backend_id, spawn)
                &&& (request.backend_id matches Some(id) ==> spawn.backend_id == id)
                &&& (request.backend_id is None ==> spawn.backend_id@.len() == RANDOM_ID_LEN
                    && is_alphanumeric(spawn.backend_id@))
                &&& subject@ == spec_spawn_subject(request.cluster, spawn.drone_id)
                &&& timeout_secs == SPAWN_TIMEOUT_SECS
            },
            (exists|drone: Seq<char>| is_live(self@, request.cluster@, drone, now))
                ==> action is Spawn,
    {
        match self.schedule(&request.cluster, now) {
            Err(_) => SchedulerAction::Decline,
            Ok(drone) => {
                let spawn = request.schedule(&drone);
                let subject = spawn_subject(&request.cluster, &spawn.drone_id);
                SchedulerAction::Spawn { subject, request: spawn, timeout_secs: SPAWN_TIMEOUT_SECS }
            },
        }
    }

    /// The answer to the client once the drone has answered the order
    /// `spawn`, or has failed to: see [`conclusion`].
    pub fn conclude(spawn: &SpawnRequest, answer: Option<bool>) -> (response: ScheduleResponse)
        ensures
            response == conclusion(*spawn, answer),
    {
        match answer {
            Some(true) => {
                let bearer_token = match &spawn.bearer_token {
                    Some(token) => Some(token.clone()),
                    None => None,
                };
                ScheduleResponse::Scheduled {
                    drone: spawn.drone_id.clone(),
                    backend_id: spawn.backend_id.clone(),
                    bearer_token,
                }
            },
            _ => ScheduleResponse::NoDroneAvailable,
        }
    }
}

} // verus!
