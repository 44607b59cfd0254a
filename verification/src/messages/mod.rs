//! The messages that controller, drones and clients exchange over the bus.

use vstd::prelude::*;

pub mod agent;
pub mod scheduler;

verus! {

/// What the bus keeps of the messages on a subject.
#[derive(Clone, Copy, Debug, PartialEq, Eq, Structural)]
pub enum Retention {
    /// Nothing: a message reaches who listens when it is sent.
    Ephemeral,
    /// Every message, in the order sent.
    Log,
    /// The last message of each subject.
    LastPerSubject,
}

/// From where a subscriber to kept messages wants to read.
#[derive(Clone, Copy, Debug, PartialEq, Eq, Structural)]
pub enum DeliverPolicy {
    /// Everything that is kept, then what comes.
    All,
    /// The last message of each subject, then what comes.
    LastPerSubject,
    /// Only what comes.
    New,
}

/// A message that is published on a subject of its own.
pub trait TypedMessage {
    /// What the receiver answers.
    type Response;

    /// The subject on which this message travels.
    spec fn spec_subject(&self) -> Seq<char>;

    fn subject(&self) -> (subject: String)
        ensures
            subject@ == self.spec_subject(),
    ;

    /// What the bus keeps of messages of this type.
    spec fn spec_retention() -> Retention;

    fn retention() -> (retention: Retention)
        ensures
            retention == Self::spec_retention(),
    ;
}

/// A subject, or a pattern of subjects, on which messages of type `M` are
/// expected.
pub struct SubscribeSubject<M> {
    pub subject: String,
    pub message: core::marker::PhantomData<M>,
}

impl<M> SubscribeSubject<M> {
    pub fn new(subject: String) -> (subscription: Self)
        ensures
            subscription.subject@ == subject@,
    {
        SubscribeSubject { subject, message: core::marker::PhantomData }
    }
}

} // verus!
