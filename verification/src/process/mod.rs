//! Processes: their kinds, their definitions, their life cycle and the
//! decisions of their run loops.

use vstd::prelude::*;
use crate::ids::{has_duplicates, shares_element, contains_duplicate, share_element};
use crate::channel::error_if;

pub mod inner;
pub mod presult;
pub mod run;

verus! {

/// Specifies the loop behavior of a process.
///
/// - `Synchronous` is a fixed-time step loop in which endpoints are polled
///   once per 'tick'.
/// - `Asynchronous` is a loop that blocks waiting on exactly one channel
///   endpoint.
/// - `AsynchronousPolling` polls to exhaustion and updates immediately.
#[derive(Clone, Copy, Debug, PartialEq, Eq, Structural)]
pub enum Kind {
    /// A fixed-time step loop.
    Synchronous { tick_ms: u32, ticks_per_update: u32 },
    /// Block waiting on one endpoint.
    Asynchronous { messages_per_update: u32 },
    /// Poll to exhaustion and update immediately.
    AsynchronousPolling,
}

/// Whether a run loop goes on after handling a message or an update.
#[derive(Clone, Copy, Debug, PartialEq, Eq, Structural)]
pub enum ControlFlow {
    Continue,
    Break,
}

/// Error constructing a process `Kind`.
#[derive(Clone, Debug, PartialEq, Eq, Structural)]
pub enum KindError {
    SynchronousZeroTickMs,
    SynchronousZeroTicksPerUpdate,
    AsynchronousZeroMessagesPerUpdate,
}

/// Error defining a process `Def`.
#[derive(Clone, Debug, PartialEq, Eq, Structural)]
pub enum DefineError {
    DuplicateSourcepoint,
    DuplicateEndpoint,
    SourcepointEqEndpoint,
    AsynchronousZeroEndpoints,
    AsynchronousMultipleEndpoints,
}

/// The errors of `Kind::new_synchronous`, in order.
pub open spec fn synchronous_errors(tick_ms: u32, ticks_per_update: u32) -> Seq<KindError> {
    error_if(tick_ms == 0, KindError::SynchronousZeroTickMs) + error_if(
        ticks_per_update == 0,
        KindError::SynchronousZeroTicksPerUpdate,
    )
}

/// The errors of `Kind::new_asynchronous`.
pub open spec fn asynchronous_errors(messages_per_update: u32) -> Seq<KindError> {
    error_if(messages_per_update == 0, KindError::AsynchronousZeroMessagesPerUpdate)
}

/// A kind whose loop parameters are all positive: what the run loops need.
pub open spec fn kind_is_valid(kind: Kind) -> bool {
    match kind {
        Kind::Synchronous { tick_ms, ticks_per_update } => tick_ms >= 1 && ticks_per_update >= 1,
        Kind::Asynchronous { messages_per_update } => messages_per_update >= 1,
        Kind::AsynchronousPolling => true,
    }
}

impl Kind {
    /// A synchronous kind ticking once per second and updating on every tick.
    pub fn default_synchronous() -> (r: Self)
        ensures
            r == (Kind::Synchronous { tick_ms: 1000, ticks_per_update: 1 }),
            kind_is_valid(r),
    {
        let tick_ms: u32 = 1000;
        let ticks_per_update: u32 = 1;
        Kind::new_synchronous(tick_ms, ticks_per_update).unwrap()
    }

    /// An asynchronous kind updating after every message.
    pub fn default_asynchronous() -> (r: Self)
        ensures
            r == (Kind::Asynchronous { messages_per_update: 1 }),
            kind_is_valid(r),
    {
        let messages_per_update: u32 = 1;
        Kind::new_asynchronous(messages_per_update).unwrap()
    }

    /// The polling kind.
    pub fn default_asynchronous_polling() -> (r: Self)
        ensures
            r == Kind::AsynchronousPolling,
            kind_is_valid(r),
    {
        Kind::new_asynchronous_polling()
    }

    /// A synchronous kind; both parameters must be positive.
    pub fn new_synchronous(tick_ms: u32, ticks_per_update: u32) -> (r: Result<Self, Vec<KindError>>)
        ensures
            r is Ok <==> tick_ms >= 1 && ticks_per_update >= 1,
            r matches Ok(kind) ==> kind == (Kind::Synchronous { tick_ms, ticks_per_update })
                && kind_is_valid(kind),
            r matches Err(errors) ==> errors@ == synchronous_errors(tick_ms, ticks_per_update),
    {
        let mut errors: Vec<KindError> = Vec::new();
        if tick_ms == 0 {
            errors.push(KindError::SynchronousZeroTickMs);
        }
        if ticks_per_update == 0 {
            errors.push(KindError::SynchronousZeroTicksPerUpdate);
        }
        if errors.len() != 0 {
            Err(errors)
        } else {
            Ok(Kind::Synchronous { tick_ms, ticks_per_update })
        }
    }

    /// An asynchronous kind; the parameter must be positive.
    pub fn new_asynchronous(messages_per_update: u32) -> (r: Result<Self, Vec<KindError>>)
        ensures
            r is Ok <==> messages_per_update >= 1,
            r matches Ok(kind) ==> kind == (Kind::Asynchronous { messages_per_update })
                && kind_is_valid(kind),
            r matches Err(errors) ==> errors@ == asynchronous_errors(messages_per_update),
    {
        let mut errors: Vec<KindError> = Vec::new();
        if messages_per_update == 0 {
            errors.push(KindError::AsynchronousZeroMessagesPerUpdate);
        }
        if errors.len() != 0 {
            Err(errors)
        } else {
            Ok(Kind::Asynchronous { messages_per_update })
        }
    }

    /// The polling kind.
    pub fn new_asynchronous_polling() -> (r: Self)
        ensures
            r == Kind::AsynchronousPolling,
    {
        Kind::AsynchronousPolling
    }

    /// The errors that this kind gives for the endpoints of a process.
    fn validate_role(&self, sourcepoints: &Vec<usize>, endpoints: &Vec<usize>) -> (errors: Vec<DefineError>)
        ensures
            errors@ == kind_role_errors(*self, endpoints@.len()),
    {
        let mut errors: Vec<DefineError> = Vec::new();
        match self {
            Kind::Synchronous { .. } => {},
            Kind::Asynchronous { .. } => {
                // asynchronous processes must have exactly one endpoint
                if endpoints.len() == 0 {
                    errors.push(DefineError::AsynchronousZeroEndpoints);
                } else if 1 < endpoints.len() {
                    errors.push(DefineError::AsynchronousMultipleEndpoints);
                }
            },
            Kind::AsynchronousPolling => {},
        }
        errors
    }
}

/// The errors that the process kind alone gives for the number of endpoints.
pub open spec fn kind_role_errors(kind: Kind, n_endpoints: nat) -> Seq<DefineError> {
    match kind {
        Kind::Asynchronous { .. } => if n_endpoints == 0 {
            seq![DefineError::AsynchronousZeroEndpoints]
        } else if 1 < n_endpoints {
            seq![DefineError::AsynchronousMultipleEndpoints]
        } else {
            Seq::empty()
        },
        _ => Seq::empty(),
    }
}

/// All the errors of a process definition, in the order in which they are
/// reported.
pub open spec fn role_errors(kind: Kind, sourcepoints: Seq<usize>, endpoints: Seq<usize>) -> Seq<DefineError> {
    error_if(has_duplicates(sourcepoints), DefineError::DuplicateSourcepoint)
        + error_if(has_duplicates(endpoints), DefineError::DuplicateEndpoint)
        + error_if(shares_element(sourcepoints, endpoints), DefineError::SourcepointEqEndpoint)
        + kind_role_errors(kind, endpoints.len())
}

/// A well-formed process definition: no duplicate sourcepoints or endpoints,
/// no channel at both ends, and an asynchronous process has exactly one
/// endpoint. Zero sourcepoints or endpoints are otherwise allowed.
pub open spec fn valid_roles(kind: Kind, sourcepoints: Seq<usize>, endpoints: Seq<usize>) -> bool {
    &&& !has_duplicates(sourcepoints)
    &&& !has_duplicates(endpoints)
    &&& !shares_element(sourcepoints, endpoints)
    &&& (kind is Asynchronous ==> endpoints.len() == 1)
}

/// A process definition is refused with no error exactly when it is well
/// formed.
pub proof fn lemma_no_errors_iff_valid(kind: Kind, sourcepoints: Seq<usize>, endpoints: Seq<usize>)
    ensures
        role_errors(kind, sourcepoints, endpoints).len() == 0 <==> valid_roles(kind, sourcepoints, endpoints),
{
}

/// The mathematical value of a process definition.
pub struct DefView {
    pub id: usize,
    pub kind: Kind,
    pub sourcepoints: Seq<usize>,
    pub endpoints: Seq<usize>,
}

/// Process definition: identifier, kind, and the channels at which the process
/// sends (sourcepoints) and receives (endpoints).
#[derive(Debug, PartialEq, Eq)]
pub struct Def {
    id: usize,
    kind: Kind,
    sourcepoints: Vec<usize>,
    endpoints: Vec<usize>,
}

impl View for Def {
    type V = DefView;

    closed spec fn view(&self) -> DefView {
        DefView {
            id: self.id,
            kind: self.kind,
            sourcepoints: self.sourcepoints@,
            endpoints: self.endpoints@,
        }
    }
}

impl Clone for Def {
    fn clone(&self) -> (r: Self)
        ensures
            r@ == self@,
            valid_roles(r@.kind, r@.sourcepoints, r@.endpoints),
    {
        proof {
            use_type_invariant(self);
        }
        let sourcepoints = self.sourcepoints.clone();
        let endpoints = self.endpoints.clone();
        proof {
            assert(sourcepoints@ =~= self.sourcepoints@);
            assert(endpoints@ =~= self.endpoints@);
        }
        Def { id: self.id, kind: self.kind, sourcepoints, endpoints }
    }
}

impl Def {
    /// Every process definition is well formed.
    #[verifier::type_invariant]
    spec fn well_formed(self) -> bool {
        valid_roles(self.kind, self.sourcepoints@, self.endpoints@)
    }

    /// The only way to create a process definition. Checks for duplicate
    /// sourcepoints or endpoints, self-loops, and the restriction of
    /// asynchronous processes to one endpoint. The errors come in the order of
    /// `role_errors`.
    pub fn define(id: usize, kind: Kind, sourcepoints: Vec<usize>, endpoints: Vec<usize>) -> (r: Result<
        Self,
        Vec<DefineError>,
    >)
        ensures
            r is Ok <==> valid_roles(kind, sourcepoints@, endpoints@),
            r is Ok <==> role_errors(kind, sourcepoints@, endpoints@).len() == 0,
            r matches Ok(d) ==> d@ == (DefView {
                id,
                kind,
                sourcepoints: sourcepoints@,
                endpoints: endpoints@,
            }),
            r matches Err(errors) ==> errors@ == role_errors(kind, sourcepoints@, endpoints@),
    {
        let errors = validate_role(&kind, &sourcepoints, &endpoints);
        if errors.len() == 0 {
            Ok(Def { id, kind, sourcepoints, endpoints })
        } else {
            Err(errors)
        }
    }

    /// The process identifier.
    pub fn id(&self) -> (r: &usize)
        ensures
            *r == self@.id,
    {
        &self.id
    }

    /// The process kind.
    pub fn kind(&self) -> (r: &Kind)
        ensures
            *r == self@.kind,
            valid_roles(self@.kind, self@.sourcepoints, self@.endpoints),
    {
        proof {
            use_type_invariant(self);
        }
        &self.kind
    }

    /// The channels at which the process sends.
    pub fn sourcepoints(&self) -> (r: &Vec<usize>)
        ensures
            r@ == self@.sourcepoints,
            valid_roles(self@.kind, self@.sourcepoints, self@.endpoints),
    {
        proof {
            use_type_invariant(self);
        }
        &self.sourcepoints
    }

    /// The channels at which the process receives.
    pub fn endpoints(&self) -> (r: &Vec<usize>)
        ensures
            r@ == self@.endpoints,
            valid_roles(self@.kind, self@.sourcepoints, self@.endpoints),
    {
        proof {
            use_type_invariant(self);
        }
        &self.endpoints
    }
}

/// All the errors of the given roles, in the order of `role_errors`.
fn validate_role(kind: &Kind, sourcepoints: &Vec<usize>, endpoints: &Vec<usize>) -> (errors: Vec<DefineError>)
    ensures
        errors@ == role_errors(*kind, sourcepoints@, endpoints@),
{
    // we do not check that a process has zero sourcepoints or endpoints
    let mut errors: Vec<DefineError> = Vec::new();
    // duplicate sourcepoints
    if contains_duplicate(sourcepoints) {
        errors.push(DefineError::DuplicateSourcepoint);
    }
    // duplicate endpoints
    if contains_duplicate(endpoints) {
        errors.push(DefineError::DuplicateEndpoint);
    }
    // self-loops
    if share_element(sourcepoints, endpoints) {
        errors.push(DefineError::SourcepointEqEndpoint);
    }
    // validate process kind
    let mut kind_errors = kind.validate_role(sourcepoints, endpoints);
    errors.append(&mut kind_errors);
    errors
}

/// The global process type: one variant for each process of a session
/// context.
pub trait Global {
    /// The identifier of the process.
    fn id(&self) -> usize;

    /// Runs the process to completion.
    fn run(&mut self);
}

} // verus!
