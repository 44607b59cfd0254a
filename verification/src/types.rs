//! Names of clusters, drones and backends.

use crate::random::{is_alphanumeric, random_string};
use crate::text::{ascii_lower, replace, replace_char, to_ascii_lower};
use vstd::std_specs::cmp::PartialEqSpecImpl;
use vstd::prelude::*;
use vstd::string::StringExecFns;

verus! {

/// How many characters a generated identifier has.
pub const RANDOM_ID_LEN: usize = 16;

/// Stands for the dot of a cluster name inside a bus subject.
pub const SUBJECT_SEPARATOR: char = '_';

/// The name of a cluster: a dotted, DNS-like name.
#[derive(Debug, Eq, Hash)]
pub struct ClusterName(pub String);

impl Clone for ClusterName {
    fn clone(&self) -> (copy: Self)
        ensures
            copy == *self,
    {
        ClusterName(self.0.clone())
    }
}

impl PartialEq for ClusterName {
    fn eq(&self, other: &Self) -> (equal: bool) {
        self.0 == other.0
    }
}

impl PartialEqSpecImpl for ClusterName {
    open spec fn obeys_eq_spec() -> bool {
        true
    }

    open spec fn eq_spec(&self, other: &Self) -> bool {
        self.0@ == other.0@
    }
}

impl View for ClusterName {
    type V = Seq<char>;

    open spec fn view(&self) -> Seq<char> {
        self.0@
    }
}

impl ClusterName {
    pub fn new(name: &str) -> (cluster: Self)
        ensures
            cluster@ == name@,
    {
        ClusterName(String::from_str(name))
    }

    /// The name as a host name.
    pub fn hostname(&self) -> (name: &str)
        ensures
            name@ == self@,
    {
        self.0.as_str()
    }

    /// The name as one token of a bus subject: capital letters become
    /// small, and each dot becomes the separator.
    pub open spec fn spec_subject_name(self) -> Seq<char> {
        replace_char(ascii_lower(self@), '.', SUBJECT_SEPARATOR)
    }

    /// The name as one token of a bus subject. Both sides of a conversation
    /// derive their subjects through this function. Names that differ in
    /// the case of their letters only give the same token.
    pub fn subject_name(&self) -> (token: String)
        ensures
            token@ == self.spec_subject_name(),
    {
        let lower = to_ascii_lower(self.0.as_str());
        replace(lower.as_str(), '.', SUBJECT_SEPARATOR)
    }

    pub fn to_string(&self) -> (name: String)
        ensures
            name@ == self@,
    {
        self.0.clone()
    }
}


/// The token of a cluster holds no dot and no capital ASCII letter, and it is
/// as long as the name.
pub proof fn lemma_subject_name_is_one_token(cluster: ClusterName)
    ensures
        cluster.spec_subject_name().len() == cluster@.len(),
        forall|i: int|
            0 <= i < cluster@.len() ==> (#[trigger] cluster.spec_subject_name()[i]) != '.' && !('A'
                <= cluster.spec_subject_name()[i] <= 'Z'),
{
}

/// Clusters whose names differ in the case of their letters only share
/// their subjects.
pub proof fn lemma_subject_name_ignores_case(a: ClusterName, b: ClusterName)
    requires
        ascii_lower(a@) == ascii_lower(b@),
    ensures
        a.spec_subject_name() == b.spec_subject_name(),
{
}

/// The identifier of a drone: an opaque short text, unique among drones.
#[derive(Debug, Eq, Hash)]
pub struct DroneId(pub String);

impl Clone for DroneId {
    fn clone(&self) -> (copy: Self)
        ensures
            copy == *self,
    {
        DroneId(self.0.clone())
    }
}

impl PartialEq for DroneId {
    fn eq(&self, other: &Self) -> (equal: bool) {
        self.0 == other.0
    }
}

impl PartialEqSpecImpl for DroneId {
    open spec fn obeys_eq_spec() -> bool {
        true
    }

    open spec fn eq_spec(&self, other: &Self) -> bool {
        self.0@ == other.0@
    }
}

impl View for DroneId {
    type V = Seq<char>;

    open spec fn view(&self) -> Seq<char> {
        self.0@
    }
}

impl DroneId {
    pub fn new(id: String) -> (drone: Self)
        ensures
            drone@ == id@,
    {
        DroneId(id)
    }

    /// A drone identifier of [`RANDOM_ID_LEN`] letters and digits drawn at random.
    pub fn new_random() -> (drone: Self)
        ensures
            drone@.len() == RANDOM_ID_LEN,
            is_alphanumeric(drone@),
    {
        DroneId(random_string(RANDOM_ID_LEN))
    }

    pub fn id(&self) -> (id: &str)
        ensures
            id@ == self@,
    {
        self.0.as_str()
    }

    pub fn to_string(&self) -> (id: String)
        ensures
            id@ == self@,
    {
        self.0.clone()
    }
}

/// The identifier of a backend: an opaque short text, unique among backends,
/// that also serves as a host name label.
#[derive(Debug, Eq, Hash)]
pub struct BackendId(pub String);

impl Clone for BackendId {
    fn clone(&self) -> (copy: Self)
        ensures
            copy == *self,
    {
        BackendId(self.0.clone())
    }
}

impl PartialEq for BackendId {
    fn eq(&self, other: &Self) -> (equal: bool) {
        self.0 == other.0
    }
}

impl PartialEqSpecImpl for BackendId {
    open spec fn obeys_eq_spec() -> bool {
        true
    }

    open spec fn eq_spec(&self, other: &Self) -> bool {
        self.0@ == other.0@
    }
}

impl View for BackendId {
    type V = Seq<char>;

    open spec fn view(&self) -> Seq<char> {
        self.0@
    }
}

impl BackendId {
    pub fn new(id: String) -> (backend: Self)
        ensures
            backend@ == id@,
    {
        BackendId(id)
    }

    /// A backend identifier of [`RANDOM_ID_LEN`] letters and digits drawn at random.
    pub fn new_random() -> (backend: Self)
        ensures
            backend@.len() == RANDOM_ID_LEN,
            is_alphanumeric(backend@),
    {
        BackendId(random_string(RANDOM_ID_LEN))
    }

    pub fn id(&self) -> (id: &str)
        ensures
            id@ == self@,
    {
        self.0.as_str()
    }

    pub fn to_string(&self) -> (id: String)
        ensures
            id@ == self@,
    {
        self.0.clone()
    }
}

} // verus!
