//! Channels: their kinds, their definitions and the errors of their ends.

use vstd::prelude::*;
use crate::ids::{has_duplicates, shares_element, contains_duplicate, share_element};

verus! {

/// Channel kind defines the connection topology of a channel.
#[derive(Clone, Copy, Debug, PartialEq, Eq, Structural)]
pub enum Kind {
    /// An SPSC stream: one producer, one consumer.
    Simplex,
    /// A sink accepting a single message type from any number of producers,
    /// with one consumer.
    Sink,
    /// A source sending messages of a single type directly to individual
    /// consumers, with one producer.
    Source,
}

/// Error defining a channel `Def`.
#[derive(Clone, Debug, PartialEq, Eq, Structural)]
pub enum DefineError {
    ProducerEqConsumer,
    DuplicateProducer,
    DuplicateConsumer,
    MultipleProducers,
    MultipleConsumers,
    ZeroProducers,
    ZeroConsumers,
}

/// Error creating a concrete channel instance from a given channel def.
#[derive(Clone, Debug, PartialEq, Eq, Structural)]
pub enum CreateError {
    KindMismatch,
}

/// Error of a non-blocking receive.
#[derive(Clone, Copy, Debug, PartialEq, Eq, Structural)]
pub enum TryRecvError {
    Empty,
    /// Sender disconnected, no further messages will be received.
    Disconnected,
}

/// Sender disconnected, no further messages will ever be received.
#[derive(Clone, Copy, Debug, PartialEq, Eq, Structural)]
pub struct RecvError;

/// Receiver disconnected, the message will never be deliverable; the message
/// is handed back.
#[derive(Clone, Copy, PartialEq, Eq)]
pub struct SendError<M>(pub M);

impl<M> SendError<M> {
    /// The text that describes this error.
    pub fn description(&self) -> (r: &'static str)
        ensures
            r@ == "sending on a closed channel"@,
    {
        "sending on a closed channel"
    }
}

/// Interface for a channel sourcepoint, over the global message type `GMSG`.
pub trait Sourcepoint<GMSG> {
    fn send(&self, message: GMSG) -> Result<(), SendError<GMSG>>;

    fn send_to(&self, message: GMSG, recipient: usize) -> Result<(), SendError<GMSG>>;
}

/// Interface for a channel endpoint, over the global message type `GMSG`.
pub trait Endpoint<GMSG> {
    fn recv(&self) -> Result<GMSG, RecvError>;

    fn try_recv(&self) -> Result<GMSG, TryRecvError>;
}

/// `seq![e]` where `cond` holds, else the empty sequence.
pub open spec fn error_if<E>(cond: bool, e: E) -> Seq<E> {
    if cond {
        seq![e]
    } else {
        Seq::empty()
    }
}

/// The errors that the channel kind alone gives for the numbers of producers
/// and consumers.
pub open spec fn kind_role_errors(kind: Kind, n_producers: nat, n_consumers: nat) -> Seq<DefineError> {
    match kind {
        Kind::Simplex => error_if(1 < n_producers, DefineError::MultipleProducers) + error_if(
            1 < n_consumers,
            DefineError::MultipleConsumers,
        ),
        Kind::Sink => error_if(1 < n_consumers, DefineError::MultipleConsumers),
        Kind::Source => error_if(1 < n_producers, DefineError::MultipleProducers),
    }
}

/// All the errors of a channel definition, in the order in which they are
/// reported.
pub open spec fn role_errors(kind: Kind, producers: Seq<usize>, consumers: Seq<usize>) -> Seq<DefineError> {
    error_if(producers.len() == 0, DefineError::ZeroProducers)
        + error_if(consumers.len() == 0, DefineError::ZeroConsumers)
        + error_if(has_duplicates(producers), DefineError::DuplicateProducer)
        + error_if(has_duplicates(consumers), DefineError::DuplicateConsumer)
        + error_if(shares_element(producers, consumers), DefineError::ProducerEqConsumer)
        + kind_role_errors(kind, producers.len(), consumers.len())
}

/// The numbers of producers and consumers that a channel kind admits.
pub open spec fn kind_admits(kind: Kind, n_producers: nat, n_consumers: nat) -> bool {
    match kind {
        Kind::Simplex => n_producers <= 1 && n_consumers <= 1,
        Kind::Sink => n_consumers <= 1,
        Kind::Source => n_producers <= 1,
    }
}

/// A well-formed channel definition: at least one process at each end, no
/// duplicates, no process at both ends, and as many processes at each end as
/// the kind admits.
pub open spec fn valid_roles(kind: Kind, producers: Seq<usize>, consumers: Seq<usize>) -> bool {
    &&& producers.len() >= 1
    &&& consumers.len() >= 1
    &&& !has_duplicates(producers)
    &&& !has_duplicates(consumers)
    &&& !shares_element(producers, consumers)
    &&& kind_admits(kind, producers.len(), consumers.len())
}

/// A channel definition is refused with no error exactly when it is well
/// formed.
pub proof fn lemma_no_errors_iff_valid(kind: Kind, producers: Seq<usize>, consumers: Seq<usize>)
    ensures
        role_errors(kind, producers, consumers).len() == 0 <==> valid_roles(kind, producers, consumers),
{
}

/// The mathematical value of a channel definition.
pub struct DefView {
    pub id: usize,
    pub kind: Kind,
    pub producers: Seq<usize>,
    pub consumers: Seq<usize>,
    pub message_type_id: usize,
}

/// Channel definition: identifier, kind, producing and consuming processes, and
/// the identifier of the message type that it carries.
#[derive(Debug, PartialEq, Eq)]
pub struct Def {
    id: usize,
    kind: Kind,
    producers: Vec<usize>,
    consumers: Vec<usize>,
    message_type_id: usize,
}

impl View for Def {
    type V = DefView;

    closed spec fn view(&self) -> DefView {
        DefView {
            id: self.id,
            kind: self.kind,
            producers: self.producers@,
            consumers: self.consumers@,
            message_type_id: self.message_type_id,
        }
    }
}

impl Clone for Def {
    fn clone(&self) -> (r: Self)
        ensures
            r@ == self@,
            valid_roles(r@.kind, r@.producers, r@.consumers),
    {
        proof {
            use_type_invariant(self);
        }
        let producers = self.producers.clone();
        let consumers = self.consumers.clone();
        proof {
            assert(producers@ =~= self.producers@);
            assert(consumers@ =~= self.consumers@);
        }
        Def {
            id: self.id,
            kind: self.kind,
            producers,
            consumers,
            message_type_id: self.message_type_id,
        }
    }
}

impl Def {
    /// Every channel definition is well formed.
    #[verifier::type_invariant]
    spec fn well_formed(self) -> bool {
        valid_roles(self.kind, self.producers@, self.consumers@)
    }

    /// The only way to create a channel definition; validates the producers
    /// and consumers for well-formedness (at least one process at each end,
    /// no duplicates or self-loops) and for compatibility with the channel
    /// kind. The errors come in the order of `role_errors`.
    pub fn define(
        id: usize,
        kind: Kind,
        producers: Vec<usize>,
        consumers: Vec<usize>,
        message_type_id: usize,
    ) -> (r: Result<Self, Vec<DefineError>>)
        ensures
            r is Ok <==> valid_roles(kind, producers@, consumers@),
            r is Ok <==> role_errors(kind, producers@, consumers@).len() == 0,
            r matches Ok(d) ==> d@ == (DefView {
                id,
                kind,
                producers: producers@,
                consumers: consumers@,
                message_type_id,
            }),
            r matches Err(errors) ==> errors@ == role_errors(kind, producers@, consumers@),
    {
        let errors = validate_roles(&kind, &producers, &consumers);
        if errors.len() == 0 {
            Ok(Def { id, kind, producers, consumers, message_type_id })
        } else {
            Err(errors)
        }
    }

    /// The channel identifier.
    pub fn id(&self) -> (r: &usize)
        ensures
            *r == self@.id,
    {
        &self.id
    }

    /// The channel kind.
    pub fn kind(&self) -> (r: &Kind)
        ensures
            *r == self@.kind,
            valid_roles(self@.kind, self@.producers, self@.consumers),
    {
        proof {
            use_type_invariant(self);
        }
        &self.kind
    }

    /// The producing processes.
    pub fn producers(&self) -> (r: &Vec<usize>)
        ensures
            r@ == self@.producers,
            valid_roles(self@.kind, self@.producers, self@.consumers),
    {
        proof {
            use_type_invariant(self);
        }
        &self.producers
    }

    /// The consuming processes.
    pub fn consumers(&self) -> (r: &Vec<usize>)
        ensures
            r@ == self@.consumers,
            valid_roles(self@.kind, self@.producers, self@.consumers),
    {
        proof {
            use_type_invariant(self);
        }
        &self.consumers
    }

    /// The identifier of the message type that the channel carries.
    pub fn message_type_id(&self) -> (r: usize)
        ensures
            r == self@.message_type_id,
    {
        self.message_type_id
    }
}

/// All the errors of the given roles, in the order of `role_errors`.
fn validate_roles(kind: &Kind, producers: &Vec<usize>, consumers: &Vec<usize>) -> (errors: Vec<DefineError>)
    ensures
        errors@ == role_errors(*kind, producers@, consumers@),
{
    let mut errors: Vec<DefineError> = Vec::new();
    // zero producers
    if producers.len() == 0 {
        errors.push(DefineError::ZeroProducers);
    }
    // zero consumers
    if consumers.len() == 0 {
        errors.push(DefineError::ZeroConsumers);
    }
    // duplicate sourcepoints
    if contains_duplicate(producers) {
        errors.push(DefineError::DuplicateProducer);
    }
    // duplicate endpoints
    if contains_duplicate(consumers) {
        errors.push(DefineError::DuplicateConsumer);
    }
    // self-loops
    if share_element(producers, consumers) {
        errors.push(DefineError::ProducerEqConsumer);
    }
    // validate channel kind
    let mut kind_errors = kind.validate_roles(producers, consumers);
    errors.append(&mut kind_errors);
    errors
}

impl Kind {
    /// The errors that this kind gives for the numbers of producers and
    /// consumers.
    fn validate_roles(&self, producers: &Vec<usize>, consumers: &Vec<usize>) -> (errors: Vec<DefineError>)
        ensures
            errors@ == kind_role_errors(*self, producers@.len(), consumers@.len()),
    {
        let mut errors: Vec<DefineError> = Vec::new();
        match self {
            Kind::Simplex => {
                if 1 < producers.len() {
                    errors.push(DefineError::MultipleProducers);
                }
                if 1 < consumers.len() {
                    errors.push(DefineError::MultipleConsumers);
                }
            },
            Kind::Sink => {
                if 1 < consumers.len() {
                    errors.push(DefineError::MultipleConsumers);
                }
            },
            Kind::Source => {
                if 1 < producers.len() {
                    errors.push(DefineError::MultipleProducers);
                }
            },
        }
        errors
    }
}

} // verus!
