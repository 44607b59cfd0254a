//! The grammar of bus subjects.
//!
//! A cluster enters a subject as one token (see
//! [`ClusterName::subject_name`]); drone and backend identifiers enter as
//! they are.

use crate::text::concat3;
use crate::types::{BackendId, ClusterName, DroneId};
use vstd::prelude::*;
use vstd::string::StringExecFns;

verus! {

/// `cluster.<C>.<leaf>`
pub open spec fn cluster_subject(cluster: ClusterName, leaf: Seq<char>) -> Seq<char> {
    "cluster."@ + cluster.spec_subject_name() + "."@ + leaf
}

/// `cluster.<C>.<kind>.<name>.<leaf>`
pub open spec fn cluster_member_subject(
    cluster: ClusterName,
    kind: Seq<char>,
    name: Seq<char>,
    leaf: Seq<char>,
) -> Seq<char> {
    "cluster."@ + cluster.spec_subject_name() + "."@ + kind + "."@ + name + "."@ + leaf
}

/// `backend.<B>.<leaf>`
pub open spec fn backend_subject(backend: Seq<char>, leaf: Seq<char>) -> Seq<char> {
    "backend."@ + backend + "."@ + leaf
}

/// `cluster.<C>.schedule`: requests to schedule a backend on a cluster.
pub open spec fn spec_schedule_subject(cluster: ClusterName) -> Seq<char> {
    cluster_subject(cluster, "schedule"@)
}

/// `cluster.<C>.drone.<D>.spawn`: requests from the scheduler to one drone.
pub open spec fn spec_spawn_subject(cluster: ClusterName, drone: DroneId) -> Seq<char> {
    cluster_member_subject(cluster, "drone"@, drone@, "spawn"@)
}

/// `cluster.<C>.drone.<D>.status`: heartbeats of one drone.
pub open spec fn spec_status_subject(cluster: ClusterName, drone: DroneId) -> Seq<char> {
    cluster_member_subject(cluster, "drone"@, drone@, "status"@)
}

/// `cluster.<C>.drone.<D>.drain`: requests to drain one drone.
pub open spec fn spec_drain_subject(cluster: ClusterName, drone: DroneId) -> Seq<char> {
    cluster_member_subject(cluster, "drone"@, drone@, "drain"@)
}

/// `backend.<B>.state`: the state transitions of one backend.
pub open spec fn spec_state_subject(backend: BackendId) -> Seq<char> {
    backend_subject(backend@, "state"@)
}

/// `backend.<B>.terminate`: requests to terminate one backend.
pub open spec fn spec_terminate_subject(backend: BackendId) -> Seq<char> {
    backend_subject(backend@, "terminate"@)
}

/// `cluster.<C>.dns.<name>`: DNS records of a cluster.
pub open spec fn spec_dns_subject(cluster: ClusterName, name: Seq<char>) -> Seq<char> {
    "cluster."@ + cluster.spec_subject_name() + ".dns."@ + name
}

fn cluster_leaf(cluster: &ClusterName, leaf: &str) -> (subject: String)
    ensures
        subject@ == cluster_subject(*cluster, leaf@),
{
    let token = cluster.subject_name();
    let mut subject = concat3("cluster.", token.as_str(), ".");
    subject.append(leaf);
    subject
}

fn cluster_member(cluster: &ClusterName, kind: &str, name: &str, leaf: &str) -> (subject: String)
    ensures
        subject@ == cluster_member_subject(*cluster, kind@, name@, leaf@),
{
    let mut subject = cluster_leaf(cluster, kind);
    subject.append(".");
    subject.append(name);
    subject.append(".");
    subject.append(leaf);
    subject
}

fn backend_leaf(backend: &BackendId, leaf: &str) -> (subject: String)
    ensures
        subject@ == backend_subject(backend@, leaf@),
{
    let mut subject = concat3("backend.", backend.id(), ".");
    subject.append(leaf);
    subject
}

pub fn schedule_subject(cluster: &ClusterName) -> (subject: String)
    ensures
        subject@ == spec_schedule_subject(*cluster),
{
    cluster_leaf(cluster, "schedule")
}

pub fn spawn_subject(cluster: &ClusterName, drone: &DroneId) -> (subject: String)
    ensures
        subject@ == spec_spawn_subject(*cluster, *drone),
{
    cluster_member(cluster, "drone", drone.id(), "spawn")
}

pub fn status_subject(cluster: &ClusterName, drone: &DroneId) -> (subject: String)
    ensures
        subject@ == spec_status_subject(*cluster, *drone),
{
    cluster_member(cluster, "drone", drone.id(), "status")
}

pub fn drain_subject(cluster: &ClusterName, drone: &DroneId) -> (subject: String)
    ensures
        subject@ == spec_drain_subject(*cluster, *drone),
{
    cluster_member(cluster, "drone", drone.id(), "drain")
}

pub fn state_subject(backend: &BackendId) -> (subject: String)
    ensures
        subject@ == spec_state_subject(*backend),
{
    backend_leaf(backend, "state")
}

pub fn terminate_subject(backend: &BackendId) -> (subject: String)
    ensures
        subject@ == spec_terminate_subject(*backend),
{
    backend_leaf(backend, "terminate")
}

pub fn dns_subject(cluster: &ClusterName, name: &str) -> (subject: String)
    ensures
        subject@ == spec_dns_subject(*cluster, name@),
{
    let token = cluster.subject_name();
    let mut subject = concat3("cluster.", token.as_str(), ".dns.");
    subject.append(name);
    subject
}

} // verus!
