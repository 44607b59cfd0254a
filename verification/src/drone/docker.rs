//! What the executor reads out of the answers of a Docker engine.
//!
//! The answers come as plain values: the caller copies out of the engine's
//! own types what these functions read.

use crate::collections::insert_entry;
use crate::text::{before_first, concat2, decimal, take_before, text_eq, to_decimal};
use crate::types::BackendId;
use std::collections::HashMap;
use std::time::Duration;
use vstd::hash_map::StringHashMap;
use vstd::prelude::*;
use vstd::string::StringExecFns;

verus! {

/// The whole seconds that a duration holds.
pub uninterp spec fn duration_secs(duration: Duration) -> u64;

/// `Duration::as_secs` of std: the number of whole seconds that the duration
/// contains.
pub assume_specification[ Duration::as_secs ](duration: &Duration) -> (secs: u64)
    ensures
        secs == duration_secs(*duration),
;

/// Time spans in minutes.
pub trait MinuteExt {
    /// The whole minutes of the span.
    spec fn spec_as_minutes(&self) -> nat;

    fn as_minutes(&self) -> (minutes: u128)
        ensures
            minutes == self.spec_as_minutes(),
    ;
}

impl MinuteExt for Duration {
    open spec fn spec_as_minutes(&self) -> nat {
        (duration_secs(*self) / 60) as nat
    }

    fn as_minutes(&self) -> (minutes: u128) {
        (self.as_secs() / 60) as u128
    }
}

/// The key under which a container exposes the TCP port `port`.
pub open spec fn port_key(port: u16) -> Seq<char> {
    decimal(port as nat) + "/tcp"@
}

/// Whether `ports` exposes the TCP port `port` and nothing else.
pub open spec fn exposes_only(ports: Map<String, HashMap<(), ()>>, port: u16) -> bool {
    exists|key: String| #[trigger] key@ == port_key(port) && ports.dom() == set![key] && ports[key]@.dom()
        == Set::<()>::empty()
}

/// The ports to expose on a container that serves on the TCP port `port`,
/// in the form in which the engine takes them.
pub fn make_exposed_ports(port: u16) -> (ports: Option<HashMap<String, HashMap<(), ()>>>)
    ensures
        ports matches Some(map) && exposes_only(map@, port),
{
    let dummy: HashMap<(), ()> = HashMap::new();
    let number = to_decimal(port as u64);
    let key = concat2(number.as_str(), "/tcp");
    let mut map: HashMap<String, HashMap<(), ()>> = HashMap::new();
    insert_entry(&mut map, key, dummy);
    assert(map@.dom() =~= set![key]);
    assert(key@ == port_key(port));
    Some(map)
}


/// An error of the Docker engine, as far as the executor looks at it.
#[derive(Debug)]
pub enum DockerError {
    /// The engine answered with an HTTP status that reports an error.
    DockerResponseServerError { status_code: u16, message: String },
    /// Any other error, in words.
    Other { message: String },
}

impl DockerError {
    /// Whether the engine says that what was asked for does not exist.
    pub open spec fn spec_is_not_found(&self) -> bool {
        self matches DockerError::DockerResponseServerError { status_code, .. } && status_code
            == 404
    }

    #[verifier::when_used_as_spec(spec_is_not_found)]
    pub fn is_not_found(&self) -> (not_found: bool)
        ensures
            not_found == self.spec_is_not_found(),
    {
        match self {
            DockerError::DockerResponseServerError { status_code, .. } => *status_code == 404,
            _ => false,
        }
    }
}

/// For results of calls that are as good as done when the engine does not
/// know the object: stopping or removing what is gone already.
pub trait AllowNotFound {
    /// The result with success and "not found" both taken as success.
    spec fn spec_allow_not_found(self) -> Result<(), DockerError>;

    /// Success where the call succeeded or the engine did not find the
    /// object; any other error is handed on as it is.
    fn allow_not_found(self) -> (allowed: Result<(), DockerError>)
        ensures
            allowed == self.spec_allow_not_found(),
    ;
}

impl<T> AllowNotFound for Result<T, DockerError> {
    open spec fn spec_allow_not_found(self) -> Result<(), DockerError> {
        match self {
            Ok(_) => Ok(()),
            Err(error) => if error.spec_is_not_found() {
                Ok(())
            } else {
                Err(error)
            },
        }
    }

    fn allow_not_found(self) -> (allowed: Result<(), DockerError>) {
        match self {
            Ok(_) => Ok(()),
            Err(error) => if error.is_not_found() {
                Ok(())
            } else {
                Err(error)
            },
        }
    }
}

/// What can happen to a container, as the engine reports it.
#[derive(Clone, Copy, Debug, PartialEq, Eq, Structural)]
pub enum ContainerEventType {
    Attach,
    Commit,
    Copy,
    Create,
    Destroy,
    Detach,
    Die,
    ExecCreate,
    ExecDetach,
    ExecDie,
    ExecStart,
    Export,
    HealthStatus,
    Kill,
    Oom,
    Pause,
    Rename,
    Resize,
    Restart,
    Start,
    Stop,
    Top,
    Unpause,
    Update,
}

impl ContainerEventType {
    /// The word with which the engine names this kind of event.
    pub open spec fn spec_action(&self) -> Seq<char> {
        match self {
            ContainerEventType::Attach => "attach"@,
            ContainerEventType::Commit => "commit"@,
            ContainerEventType::Copy => "copy"@,
            ContainerEventType::Create => "create"@,
            ContainerEventType::Destroy => "destroy"@,
            ContainerEventType::Detach => "detach"@,
            ContainerEventType::Die => "die"@,
            ContainerEventType::ExecCreate => "exec_create"@,
            ContainerEventType::ExecDetach => "exec_detach"@,
            ContainerEventType::ExecDie => "exec_die"@,
            ContainerEventType::ExecStart => "exec_start"@,
            ContainerEventType::Export => "export"@,
            ContainerEventType::HealthStatus => "health_status"@,
            ContainerEventType::Kill => "kill"@,
            ContainerEventType::Oom => "oom"@,
            ContainerEventType::Pause => "pause"@,
            ContainerEventType::Rename => "rename"@,
            ContainerEventType::Resize => "resize"@,
            ContainerEventType::Restart => "restart"@,
            ContainerEventType::Start => "start"@,
            ContainerEventType::Stop => "stop"@,
            ContainerEventType::Top => "top"@,
            ContainerEventType::Unpause => "unpause"@,
            ContainerEventType::Update => "update"@,
        }
    }

    pub fn action(&self) -> (word: &'static str)
        ensures
            word@ == self.spec_action(),
    {
        match self {
            ContainerEventType::Attach => "attach",
            ContainerEventType::Commit => "commit",
            ContainerEventType::Copy => "copy",
            ContainerEventType::Create => "create",
            ContainerEventType::Destroy => "destroy",
            ContainerEventType::Detach => "detach",
            ContainerEventType::Die => "die",
            ContainerEventType::ExecCreate => "exec_create",
            ContainerEventType::ExecDetach => "exec_detach",
            ContainerEventType::ExecDie => "exec_die",
            ContainerEventType::ExecStart => "exec_start",
            ContainerEventType::Export => "export",
            ContainerEventType::HealthStatus => "health_status",
            ContainerEventType::Kill => "kill",
            ContainerEventType::Oom => "oom",
            ContainerEventType::Pause => "pause",
            ContainerEventType::Rename => "rename",
            ContainerEventType::Resize => "resize",
            ContainerEventType::Restart => "restart",
            ContainerEventType::Start => "start",
            ContainerEventType::Stop => "stop",
            ContainerEventType::Top => "top",
            ContainerEventType::Unpause => "unpause",
            ContainerEventType::Update => "update",
        }
    }

    /// The kind of event that the engine names `word`, if it names one.
    pub open spec fn spec_from_action(word: Seq<char>) -> Option<ContainerEventType> {
        if exists|kind: ContainerEventType| #[trigger] kind.spec_action() == word {
            Some(choose|kind: ContainerEventType| #[trigger] kind.spec_action() == word)
        } else {
            None
        }
    }

    /// Every kind of event, in the order of the declaration.
    pub fn all() -> (kinds: Vec<ContainerEventType>)
        ensures
            kinds@.len() == 24,
            forall|kind: ContainerEventType| #[trigger] kinds@.contains(kind),
    {
        let kinds = vec![
            ContainerEventType::Attach,
            ContainerEventType::Commit,
            ContainerEventType::Copy,
            ContainerEventType::Create,
            ContainerEventType::Destroy,
            ContainerEventType::Detach,
            ContainerEventType::Die,
            ContainerEventType::ExecCreate,
            ContainerEventType::ExecDetach,
            ContainerEventType::ExecDie,
            ContainerEventType::ExecStart,
            ContainerEventType::Export,
            ContainerEventType::HealthStatus,
            ContainerEventType::Kill,
            ContainerEventType::Oom,
            ContainerEventType::Pause,
            ContainerEventType::Rename,
            ContainerEventType::Resize,
            ContainerEventType::Restart,
            ContainerEventType::Start,
            ContainerEventType::Stop,
            ContainerEventType::Top,
            ContainerEventType::Unpause,
            ContainerEventType::Update,
        ];
        assert forall|kind: ContainerEventType| #[trigger] kinds@.contains(kind) by {
            let i: int = match kind {
                ContainerEventType::Attach => 0,
                ContainerEventType::Commit => 1,
                ContainerEventType::Copy => 2,
                ContainerEventType::Create => 3,
                ContainerEventType::Destroy => 4,
                ContainerEventType::Detach => 5,
                ContainerEventType::Die => 6,
                ContainerEventType::ExecCreate => 7,
                ContainerEventType::ExecDetach => 8,
                ContainerEventType::ExecDie => 9,
                ContainerEventType::ExecStart => 10,
                ContainerEventType::Export => 11,
                ContainerEventType::HealthStatus => 12,
                ContainerEventType::Kill => 13,
                ContainerEventType::Oom => 14,
                ContainerEventType::Pause => 15,
                ContainerEventType::Rename => 16,
                ContainerEventType::Resize => 17,
                ContainerEventType::Restart => 18,
                ContainerEventType::Start => 19,
                ContainerEventType::Stop => 20,
                ContainerEventType::Top => 21,
                ContainerEventType::Unpause => 22,
                ContainerEventType::Update => 23,
            };
            assert(kinds@[i] == kind);
        }
        kinds
    }

    /// The kind of event that the engine names `word`, if it names one.
    pub fn from_action(word: &str) -> (kind: Option<ContainerEventType>)
        ensures
            kind == Self::spec_from_action(word@),
    {
        let kinds = Self::all();
        let mut i: usize = 0;
        while i < kinds.len()
            invariant
                i <= kinds@.len(),
                forall|kind: ContainerEventType| #[trigger] kinds@.contains(kind),
                forall|j: int| 0 <= j < i ==> (#[trigger] kinds@[j]).spec_action() != word@,
            decreases kinds@.len() - i,
        {
            let kind = kinds[i];
            if text_eq(kind.action(), word) {
                proof {
                    let chosen = choose|kind: ContainerEventType| #[trigger]
                        kind.spec_action() == word@;
                    lemma_actions_differ(kind, chosen);
                }
                return Some(kind);
            }
            i = i + 1;
        }
        proof {
            assert forall|kind: ContainerEventType| #[trigger] kind.spec_action() != word@ by {
                assert(kinds@.contains(kind));
                let j = choose|j: int| 0 <= j < kinds@.len() && kinds@[j] == kind;
                assert(kinds@[j].spec_action() != word@);
            }
        }
        None
    }
}

/// What tells a word from the words of the other kinds of event: its
/// length, its first and third character, and its sixth where it has one.
pub open spec fn signature(word: Seq<char>) -> (nat, char, char, char) {
    (
        word.len(),
        word[0],
        word[2],
        if word.len() > 5 {
            word[5]
        } else {
            '?'
        },
    )
}

/// The signature of the word of each kind of event.
pub open spec fn signature_of(kind: ContainerEventType) -> (nat, char, char, char) {
    match kind {
        ContainerEventType::Attach => (6, 'a', 't', 'h'),
        ContainerEventType::Commit => (6, 'c', 'm', 't'),
        ContainerEventType::Copy => (4, 'c', 'p', '?'),
        ContainerEventType::Create => (6, 'c', 'e', 'e'),
        ContainerEventType::Destroy => (7, 'd', 's', 'o'),
        ContainerEventType::Detach => (6, 'd', 't', 'h'),
        ContainerEventType::Die => (3, 'd', 'e', '?'),
        ContainerEventType::ExecCreate => (11, 'e', 'e', 'c'),
        ContainerEventType::ExecDetach => (11, 'e', 'e', 'd'),
        ContainerEventType::ExecDie => (8, 'e', 'e', 'd'),
        ContainerEventType::ExecStart => (10, 'e', 'e', 's'),
        ContainerEventType::Export => (6, 'e', 'p', 't'),
        ContainerEventType::HealthStatus => (13, 'h', 'a', 'h'),
        ContainerEventType::Kill => (4, 'k', 'l', '?'),
        ContainerEventType::Oom => (3, 'o', 'm', '?'),
        ContainerEventType::Pause => (5, 'p', 'u', '?'),
        ContainerEventType::Rename => (6, 'r', 'n', 'e'),
        ContainerEventType::Resize => (6, 'r', 's', 'e'),
        ContainerEventType::Restart => (7, 'r', 's', 'r'),
        ContainerEventType::Start => (5, 's', 'a', '?'),
        ContainerEventType::Stop => (4, 's', 'o', '?'),
        ContainerEventType::Top => (3, 't', 'p', '?'),
        ContainerEventType::Unpause => (7, 'u', 'p', 's'),
        ContainerEventType::Update => (6, 'u', 'd', 'e'),
    }
}

/// The word of each kind of event has the signature that the table gives.
pub proof fn lemma_signature(kind: ContainerEventType)
    ensures
        signature(kind.spec_action()) == signature_of(kind),
{
    match kind {
        ContainerEventType::Attach => {
            reveal_strlit("attach");
        },
        ContainerEventType::Commit => {
            reveal_strlit("commit");
        },
        ContainerEventType::Copy => {
            reveal_strlit("copy");
        },
        ContainerEventType::Create => {
            reveal_strlit("create");
        },
        ContainerEventType::Destroy => {
            reveal_strlit("destroy");
        },
        ContainerEventType::Detach => {
            reveal_strlit("detach");
        },
        ContainerEventType::Die => {
            reveal_strlit("die");
        },
        ContainerEventType::ExecCreate => {
            reveal_strlit("exec_create");
        },
        ContainerEventType::ExecDetach => {
            reveal_strlit("exec_detach");
        },
        ContainerEventType::ExecDie => {
            reveal_strlit("exec_die");
        },
        ContainerEventType::ExecStart => {
            reveal_strlit("exec_start");
        },
        ContainerEventType::Export => {
            reveal_strlit("export");
        },
        ContainerEventType::HealthStatus => {
            reveal_strlit("health_status");
        },
        ContainerEventType::Kill => {
            reveal_strlit("kill");
        },
        ContainerEventType::Oom => {
            reveal_strlit("oom");
        },
        ContainerEventType::Pause => {
            reveal_strlit("pause");
        },
        ContainerEventType::Rename => {
            reveal_strlit("rename");
        },
        ContainerEventType::Resize => {
            reveal_strlit("resize");
        },
        ContainerEventType::Restart => {
            reveal_strlit("restart");
        },
        ContainerEventType::Start => {
            reveal_strlit("start");
        },
        ContainerEventType::Stop => {
            reveal_strlit("stop");
        },
        ContainerEventType::Top => {
            reveal_strlit("top");
        },
        ContainerEventType::Unpause => {
            reveal_strlit("unpause");
        },
        ContainerEventType::Update => {
            reveal_strlit("update");
        },
    }
}

/// No two kinds of event go by the same word.
pub proof fn lemma_actions_differ(a: ContainerEventType, b: ContainerEventType)
    requires
        a.spec_action() == b.spec_action(),
    ensures
        a == b,
{
    lemma_signature(a);
    lemma_signature(b);
    assert(signature_of(a) == signature_of(b));
}

/// The party that an event of the engine is about.
pub struct EventActor {
    /// Attributes of the party by name. A container has its name under
    /// `name`.
    pub attributes: Option<StringHashMap<String>>,
}

/// The attributes that `pairs` give, each pair a name and a value. Where a
/// name comes twice, its last value counts.
pub open spec fn attributes_of(pairs: Seq<(String, String)>) -> Map<Seq<char>, String>
    decreases pairs.len(),
{
    if pairs.len() == 0 {
        Map::empty()
    } else {
        attributes_of(pairs.drop_last()).insert(pairs.last().0@, pairs.last().1)
    }
}

impl EventActor {
    /// A party with the attributes that `pairs` give; without attributes
    /// where there are no pairs at all.
    pub fn new(pairs: Option<Vec<(String, String)>>) -> (actor: Self)
        ensures
            pairs is None ==> actor.attributes is None,
            pairs matches Some(list) ==> actor.attributes is Some && actor.attributes->0@
                == attributes_of(list@),
    {
        match pairs {
            None => EventActor { attributes: None },
            Some(list) => {
                let mut attributes: StringHashMap<String> = StringHashMap::new();
                let mut i: usize = 0;
                while i < list.len()
                    invariant
                        i <= list@.len(),
                        attributes@ == attributes_of(list@.take(i as int)),
                    decreases list@.len() - i,
                {
                    let name = list[i].0.clone();
                    let value = list[i].1.clone();
                    attributes.insert(name, value);
                    assert(list@.take(i + 1).drop_last() =~= list@.take(i as int));
                    i = i + 1;
                }
                assert(list@.take(i as int) =~= list@);
                EventActor { attributes: Some(attributes) }
            },
        }
    }
}

/// An event of the engine.
pub struct EventMessage {
    /// The word for what happened. Some events add detail after a colon.
    pub action: Option<String>,
    pub actor: Option<EventActor>,
}

impl EventMessage {
    /// The name of the container that the event is about, where the event
    /// gives it.
    pub open spec fn container_name(&self) -> Option<Seq<char>> {
        match self.actor {
            Some(actor) => match actor.attributes {
                Some(attributes) => if attributes@.contains_key("name"@) {
                    Some(attributes@["name"@]@)
                } else {
                    None
                },
                None => None,
            },
            None => None,
        }
    }

    /// The kind of the event, where the event says what happened in a word
    /// that names a kind; detail after a colon is not looked at.
    pub open spec fn kind(&self) -> Option<ContainerEventType> {
        match self.action {
            Some(action) => ContainerEventType::spec_from_action(before_first(action@, ':')),
            None => None,
        }
    }
}

/// Something that happened to a container.
#[derive(Debug)]
pub struct ContainerEvent {
    pub event: ContainerEventType,
    /// The name of the container.
    pub name: String,
}

impl ContainerEvent {
    /// The event of a container that `event` reports: one is reported where
    /// the message names a kind of event and the container; what happened
    /// and to whom are taken over.
    pub fn from_event_message(event: &EventMessage) -> (container_event: Option<Self>)
        ensures
            container_event is Some <==> event.kind() is Some && event.container_name() is Some,
            container_event matches Some(found) ==> Some(found.event) == event.kind() && Some(
                found.name@,
            ) == event.container_name(),
    {
        let action = match &event.action {
            Some(action) => action,
            None => {
                return None;
            },
        };
        let actor = match &event.actor {
            Some(actor) => actor,
            None => {
                return None;
            },
        };
        let attributes = match &actor.attributes {
            Some(attributes) => attributes,
            None => {
                return None;
            },
        };
        let name = match attributes.get("name") {
            Some(name) => name.clone(),
            None => {
                return None;
            },
        };
        let word = take_before(action.as_str(), ':');
        match ContainerEventType::from_action(word.as_str()) {
            Some(kind) => Some(ContainerEvent { event: kind, name }),
            None => None,
        }
    }
}


/// How a container is attached to one network.
pub struct EndpointSettings {
    pub ip_address: Option<String>,
}

/// How a container is attached to its networks.
pub struct NetworkSettings {
    /// The address of the container on the default network.
    pub ip_address: Option<String>,
    /// The networks of the container, each with its name.
    pub networks: Option<Vec<(String, EndpointSettings)>>,
}

/// What the engine says on inspecting a container.
pub struct ContainerInspectResponse {
    pub network_settings: Option<NetworkSettings>,
}

/// Why an inspection does not give the address of a container.
#[derive(Clone, Copy, Debug, PartialEq, Eq, Structural)]
pub enum InspectError {
    /// The inspection says nothing about networks.
    NoNetworkSettings,
    /// The inspection gives neither an address nor networks.
    NoIpOrNetworks,
    /// The container is on this many networks, where one was expected.
    NetworkCount(usize),
    /// The one network of the container gives no address.
    NoIpOnNetwork,
}

impl InspectError {
    pub open spec fn spec_message(&self) -> Seq<char> {
        match self {
            InspectError::NoNetworkSettings => "Inspect did not return network settings."@,
            InspectError::NoIpOrNetworks => "Inspect did not return an IP or networks."@,
            InspectError::NetworkCount(count) => "Expected exactly one network, got "@ + decimal(
                *count as nat,
            ),
            InspectError::NoIpOnNetwork => "One network found, but did not have IP address."@,
        }
    }

    /// The error in words.
    pub fn message(&self) -> (text: String)
        ensures
            text@ == self.spec_message(),
    {
        match self {
            InspectError::NoNetworkSettings => String::from_str(
                "Inspect did not return network settings.",
            ),
            InspectError::NoIpOrNetworks => String::from_str(
                "Inspect did not return an IP or networks.",
            ),
            InspectError::NetworkCount(count) => {
                let number = to_decimal(*count as u64);
                concat2("Expected exactly one network, got ", number.as_str())
            },
            InspectError::NoIpOnNetwork => String::from_str(
                "One network found, but did not have IP address.",
            ),
        }
    }
}

/// The address of a container as its inspection writes it: the address on
/// the default network where there is one and it is not empty, else the
/// address on the only network of the container.
pub open spec fn container_ip(inspect: ContainerInspectResponse) -> Result<Seq<char>, InspectError> {
    match inspect.network_settings {
        None => Err(InspectError::NoNetworkSettings),
        Some(settings) => if settings.ip_address is Some && settings.ip_address->0@.len() > 0 {
            Ok(settings.ip_address->0@)
        } else {
            match settings.networks {
                None => Err(InspectError::NoIpOrNetworks),
                Some(networks) => if networks@.len() != 1 {
                    Err(InspectError::NetworkCount(networks@.len() as usize))
                } else {
                    match networks@[0].1.ip_address {
                        Some(ip) => Ok(ip@),
                        None => Err(InspectError::NoIpOnNetwork),
                    }
                },
            }
        },
    }
}

/// The address of the container, as text. Whether the text is an IP address
/// is for the caller to find out.
pub fn get_ip_of_container(inspect_response: &ContainerInspectResponse) -> (ip: Result<
    String,
    InspectError,
>)
    ensures
        ip matches Ok(text) ==> container_ip(*inspect_response) == Ok::<Seq<char>, InspectError>(
            text@,
        ),
        ip matches Err(error) ==> container_ip(*inspect_response) == Err::<
            Seq<char>,
            InspectError,
        >(error),
{
    let network_settings = match &inspect_response.network_settings {
        Some(settings) => settings,
        None => {
            return Err(InspectError::NoNetworkSettings);
        },
    };
    match &network_settings.ip_address {
        Some(ip_addr) => {
            if !ip_addr.as_str().is_empty() {
                return Ok(ip_addr.clone());
            }
        },
        None => {},
    }
    let networks = match &network_settings.networks {
        Some(networks) => networks,
        None => {
            return Err(InspectError::NoIpOrNetworks);
        },
    };
    if networks.len() != 1 {
        return Err(InspectError::NetworkCount(networks.len()));
    }
    match &networks[0].1.ip_address {
        Some(ip) => Ok(ip.clone()),
        None => Err(InspectError::NoIpOnNetwork),
    }
}

/// One sample of what a container consumes. The counters rise from sample
/// to sample.
#[derive(Clone, Copy, Debug, PartialEq, Eq, Structural)]
pub struct Stats {
    /// CPU time that the container has used, in nanoseconds.
    pub cpu_total_usage: u64,
    /// CPU time that the whole machine has used, in nanoseconds.
    pub system_cpu_usage: Option<u64>,
    /// Memory that the container uses, in bytes.
    pub memory_usage: Option<u64>,
    /// Memory that the container may use, in bytes.
    pub memory_limit: Option<u64>,
}

/// Two samples that follow each other, from which the use over the time
/// between them is derived.
#[derive(Debug)]
pub struct StatsWindow {
    pub backend_id: BackendId,
    pub previous: Stats,
    pub current: Stats,
}

/// How far a counter has risen from `previous` to `current`; zero where it
/// has not risen.
pub open spec fn rise(previous: u64, current: u64) -> u64 {
    if current >= previous {
        (current - previous) as u64
    } else {
        0
    }
}

impl StatsWindow {
    pub open spec fn spec_cpu_delta(&self) -> u64 {
        rise(self.previous.cpu_total_usage, self.current.cpu_total_usage)
    }

    /// The CPU time that the container used between the two samples, in
    /// nanoseconds.
    #[verifier::when_used_as_spec(spec_cpu_delta)]
    pub fn cpu_delta(&self) -> (delta: u64)
        ensures
            delta == self.spec_cpu_delta(),
    {
        if self.current.cpu_total_usage >= self.previous.cpu_total_usage {
            self.current.cpu_total_usage - self.previous.cpu_total_usage
        } else {
            0
        }
    }

    pub open spec fn spec_system_cpu_delta(&self) -> Option<u64> {
        match (self.previous.system_cpu_usage, self.current.system_cpu_usage) {
            (Some(previous), Some(current)) => Some(rise(previous, current)),
            _ => None,
        }
    }

    /// The CPU time that the whole machine used between the two samples, in
    /// nanoseconds, where both samples say so.
    #[verifier::when_used_as_spec(spec_system_cpu_delta)]
    pub fn system_cpu_delta(&self) -> (delta: Option<u64>)
        ensures
            delta == self.spec_system_cpu_delta(),
    {
        match (self.previous.system_cpu_usage, self.current.system_cpu_usage) {
            (Some(previous), Some(current)) => if current >= previous {
                Some(current - previous)
            } else {
                Some(0)
            },
            _ => None,
        }
    }
}

/// What a stream has when it is asked for its next item.
#[derive(Debug)]
pub enum Polled<T> {
    /// Nothing yet.
    Pending,
    /// The next item; `None`: the stream is at its end.
    Ready(Option<T>),
}

/// Turns the samples of a backend into windows of two samples each.
pub struct StatsStream {
    last: Option<Stats>,
    backend_id: BackendId,
}

/// The sample that is kept after the underlying stream answered `next`.
pub open spec fn kept(last: Option<Stats>, next: Polled<Stats>) -> Option<Stats> {
    match next {
        Polled::Ready(Some(sample)) => Some(sample),
        _ => last,
    }
}

/// The two samples that are handed on after the underlying stream answered
/// `next`, if any: the sample kept and the new one.
pub open spec fn window(last: Option<Stats>, next: Polled<Stats>) -> Option<(Stats, Stats)> {
    match (last, next) {
        (Some(previous), Polled::Ready(Some(current))) => Some((previous, current)),
        _ => None,
    }
}

/// The windows that come out when the samples `samples` go in one after the
/// other, beginning with `last` as the sample kept.
pub open spec fn windows(last: Option<Stats>, samples: Seq<Stats>) -> Seq<(Stats, Stats)>
    decreases samples.len(),
{
    if samples.len() == 0 {
        seq![]
    } else {
        let head = match window(last, Polled::Ready(Some(samples[0]))) {
            Some(pair) => seq![pair],
            None => seq![],
        };
        head + windows(Some(samples[0]), samples.drop_first())
    }
}

/// The first sample of a stream gives no window, and each later one gives
/// the window of the sample before it and itself.
pub proof fn lemma_windows(first: Stats, later: Seq<Stats>)
    ensures
        windows(None, seq![first] + later).len() == later.len(),
        forall|i: int|
            0 <= i < later.len() ==> #[trigger] windows(None, seq![first] + later)[i] == (
                if i == 0 {
                    first
                } else {
                    later[i - 1]
                },
                later[i],
            ),
{
    let all = seq![first] + later;
    assert(all.drop_first() =~= later);
    assert(windows(None, all) =~= windows(Some(first), later));
    lemma_windows_after(first, later);
}

/// After a sample, each further sample gives the window of the sample before
/// it and itself.
pub proof fn lemma_windows_after(last: Stats, samples: Seq<Stats>)
    ensures
        windows(Some(last), samples).len() == samples.len(),
        forall|i: int|
            0 <= i < samples.len() ==> #[trigger] windows(Some(last), samples)[i] == (
                if i == 0 {
                    last
                } else {
                    samples[i - 1]
                },
                samples[i],
            ),
    decreases samples.len(),
{
    if samples.len() > 0 {
        let rest = samples.drop_first();
        lemma_windows_after(samples[0], rest);
        let all = windows(Some(last), samples);
        assert(all =~= seq![(last, samples[0])] + windows(Some(samples[0]), rest));
        assert forall|i: int| 0 <= i < samples.len() implies #[trigger] all[i] == (
            if i == 0 {
                last
            } else {
                samples[i - 1]
            },
            samples[i],
        ) by {
            if i > 0 {
                assert(all[i] == windows(Some(samples[0]), rest)[i - 1]);
                assert(samples[i] == rest[i - 1]);
                if i > 1 {
                    assert(samples[i - 1] == rest[i - 2]);
                }
            }
        }
    }
}

impl StatsStream {
    /// The sample that the stream keeps: the last one that it has seen.
    pub closed spec fn last(&self) -> Option<Stats> {
        self.last
    }

    pub closed spec fn backend(&self) -> BackendId {
        self.backend_id
    }

    /// A stream for the samples of `backend_id`, which has seen none yet.
    pub fn new(backend_id: BackendId) -> (stream: Self)
        ensures
            stream.last() is None,
            stream.backend() == backend_id,
    {
        StatsStream { last: None, backend_id }
    }

    /// Passes on what the underlying stream answered. A sample is kept, and
    /// together with the sample kept before it makes a window. The first
    /// sample makes none: the stream is pending then.
    pub fn poll_next(&mut self, next: Polled<Stats>) -> (polled: Polled<StatsWindow>)
        ensures
            final(self).last() == kept(old(self).last(), next),
            final(self).backend() == old(self).backend(),
            match polled {
                Polled::Pending => next is Pending || (next matches Polled::Ready(Some(_))
                    && old(self).last() is None),
                Polled::Ready(None) => next == Polled::<Stats>::Ready(None),
                Polled::Ready(Some(found)) => window(old(self).last(), next) == Some(
                    (found.previous, found.current),
                ) && found.backend_id == old(self).backend(),
            },
    {
        match next {
            Polled::Pending => Polled::Pending,
            Polled::Ready(None) => Polled::Ready(None),
            Polled::Ready(Some(sample)) => {
                let previous = self.last;
                self.last = Some(sample);
                match previous {
                    Some(previous) => Polled::Ready(
                        Some(
                            StatsWindow {
                                backend_id: self.backend_id.clone(),
                                previous,
                                current: sample,
                            },
                        ),
                    ),
                    None => Polled::Pending,
                }
            },
        }
    }
}

} // verus!
