//! Sessions: collections of processes and channels in a fixed communication
//! topology; their definitions, validated for a one-to-one correspondence
//! between channel producers and consumers and process sourcepoints and
//! endpoints; their life cycle; and their data-flow diagram.

use vstd::prelude::*;
use vec_map::VecMap;
use crate::channel;
use crate::process;
use crate::channel::error_if;
use crate::ids::{same_elements, contains_id};
use crate::lifecycle::{StateId, EventId, HandleEventException, next_state, handle_event};
use crate::vec_maps::{
    MAX_KEY, ascending_keys, channel_def_entries, process_def_entries, channel_def_map_new,
    channel_def_map_insert, channel_def_map_get, channel_def_map_keys, process_def_map_new,
    process_def_map_insert, process_def_map_get, process_def_map_keys,
};

pub mod dotfile;
pub mod layout;

verus! {

broadcast use vstd::seq_lib::lemma_seq_contains_after_push;

/// Error in a session `Def`: the sourcepoints and endpoints of the processes
/// must correspond one-to-one to the producers and consumers of the channels.
#[derive(Clone, Debug, PartialEq, Eq, Structural)]
pub enum DefineError {
    ProducerSourcepointMismatch,
    ConsumerEndpointMismatch,
}

/// The mathematical value of a session definition.
pub struct DefView {
    pub name: Seq<char>,
    pub channel_def: Map<usize, channel::DefView>,
    pub process_def: Map<usize, process::DefView>,
}

/// Process `pid` is a producer of channel `cid`.
pub open spec fn produces_on(channels: Map<usize, channel::DefView>, pid: usize, cid: usize) -> bool {
    channels.contains_key(cid) && channels[cid].producers.contains(pid)
}

/// Process `pid` is a consumer of channel `cid`.
pub open spec fn consumes_from(channels: Map<usize, channel::DefView>, pid: usize, cid: usize) -> bool {
    channels.contains_key(cid) && channels[cid].consumers.contains(pid)
}

/// The sourcepoints of process `pid` are the channels that it produces on.
pub open spec fn sourcepoints_correspond_at(d: DefView, pid: usize) -> bool {
    forall|cid: usize|
        d.process_def[pid].sourcepoints.contains(cid) <==> #[trigger] produces_on(d.channel_def, pid, cid)
}

/// The endpoints of process `pid` are the channels that it consumes from.
pub open spec fn endpoints_correspond_at(d: DefView, pid: usize) -> bool {
    forall|cid: usize|
        d.process_def[pid].endpoints.contains(cid) <==> #[trigger] consumes_from(d.channel_def, pid, cid)
}

/// The sourcepoints of every process are the channels that it produces on.
pub open spec fn sourcepoints_correspond(d: DefView) -> bool {
    forall|pid: usize| #[trigger] d.process_def.contains_key(pid) ==> sourcepoints_correspond_at(d, pid)
}

/// The endpoints of every process are the channels that it consumes from.
pub open spec fn endpoints_correspond(d: DefView) -> bool {
    forall|pid: usize| #[trigger] d.process_def.contains_key(pid) ==> endpoints_correspond_at(d, pid)
}

/// All the errors of a session definition, in the order in which they are
/// reported.
pub open spec fn role_errors(d: DefView) -> Seq<DefineError> {
    error_if(!sourcepoints_correspond(d), DefineError::ProducerSourcepointMismatch) + error_if(
        !endpoints_correspond(d),
        DefineError::ConsumerEndpointMismatch,
    )
}

/// In a session whose definitions are well formed and whose endpoints
/// correspond to the channels, an asynchronous process consumes from exactly
/// one channel: the one endpoint that its run loop waits on.
pub proof fn lemma_asynchronous_consumes_once(d: DefView, pid: usize)
    requires
        defs_valid(d),
        endpoints_correspond(d),
        d.process_def.contains_key(pid),
        d.process_def[pid].kind is Asynchronous,
    ensures
        exists|cid: usize|
            #[trigger] consumes_from(d.channel_def, pid, cid) && forall|c: usize|
                consumes_from(d.channel_def, pid, c) ==> c == cid,
{
    let endpoints = d.process_def[pid].endpoints;
    assert(endpoints.len() == 1);
    let cid = endpoints[0];
    assert(endpoints.contains(cid));
    assert(consumes_from(d.channel_def, pid, cid));
    assert forall|c: usize| consumes_from(d.channel_def, pid, c) implies c == cid by {
        assert(endpoints.contains(c));
    }
}

/// Session definition: its name, and its channel and process definitions keyed
/// by identifier.
#[derive(Debug, PartialEq, Eq)]
pub struct Def {
    name: &'static str,
    channel_def: VecMap<channel::Def>,
    process_def: VecMap<process::Def>,
}

impl View for Def {
    type V = DefView;

    closed spec fn view(&self) -> DefView {
        DefView {
            name: self.name@,
            channel_def: channel_def_entries(self.channel_def),
            process_def: process_def_entries(self.process_def),
        }
    }
}

/// Every key of the definition maps is at most `MAX_KEY`.
pub open spec fn keys_bounded(d: DefView) -> bool {
    &&& forall|k: usize| d.channel_def.contains_key(k) ==> k <= MAX_KEY
    &&& forall|k: usize| d.process_def.contains_key(k) ==> k <= MAX_KEY
}

/// Every channel and process definition of the session is well formed.
pub open spec fn defs_valid(d: DefView) -> bool {
    &&& forall|cid: usize|
        #[trigger] d.channel_def.contains_key(cid) ==> channel::valid_roles(
            d.channel_def[cid].kind,
            d.channel_def[cid].producers,
            d.channel_def[cid].consumers,
        )
    &&& forall|pid: usize|
        #[trigger] d.process_def.contains_key(pid) ==> process::valid_roles(
            d.process_def[pid].kind,
            d.process_def[pid].sourcepoints,
            d.process_def[pid].endpoints,
        )
}

impl Clone for Def {
    fn clone(&self) -> (r: Self)
        ensures
            r@ == self@,
    {
        proof {
            use_type_invariant(self);
        }
        let cids = channel_def_map_keys(&self.channel_def);
        let mut channel_def = channel_def_map_new();
        let mut k: usize = 0;
        while k < cids.len()
            invariant
                k <= cids.len(),
                keys_bounded(self@),
                ascending_keys(cids@, self@.channel_def.dom()),
                forall|c: usize|
                    channel_def_entries(channel_def).contains_key(c) <==> cids@.subrange(0, k as int).contains(c),
                forall|c: usize|
                    #[trigger] channel_def_entries(channel_def).contains_key(c) ==> channel_def_entries(channel_def)[c]
                        == self@.channel_def[c],
            decreases cids.len() - k,
        {
            let cid = cids[k];
            assert(self@.channel_def.contains_key(cid)) by {
                assert(cids@.contains(cid));
            }
            let cdef = channel_def_map_get(&self.channel_def, cid).unwrap().clone();
            channel_def_map_insert(&mut channel_def, cid, cdef);
            assert(cids@.subrange(0, k + 1) =~= cids@.subrange(0, k as int).push(cid));
            k = k + 1;
        }
        assert(cids@.subrange(0, cids@.len() as int) =~= cids@);
        assert(channel_def_entries(channel_def) =~= self@.channel_def);
        let pids = process_def_map_keys(&self.process_def);
        let mut process_def = process_def_map_new();
        let mut k: usize = 0;
        while k < pids.len()
            invariant
                k <= pids.len(),
                keys_bounded(self@),
                ascending_keys(pids@, self@.process_def.dom()),
                forall|c: usize|
                    process_def_entries(process_def).contains_key(c) <==> pids@.subrange(0, k as int).contains(c),
                forall|c: usize|
                    #[trigger] process_def_entries(process_def).contains_key(c) ==> process_def_entries(process_def)[c]
                        == self@.process_def[c],
            decreases pids.len() - k,
        {
            let pid = pids[k];
            assert(self@.process_def.contains_key(pid)) by {
                assert(pids@.contains(pid));
            }
            let pdef = process_def_map_get(&self.process_def, pid).unwrap().clone();
            process_def_map_insert(&mut process_def, pid, pdef);
            assert(pids@.subrange(0, k + 1) =~= pids@.subrange(0, k as int).push(pid));
            k = k + 1;
        }
        assert(pids@.subrange(0, pids@.len() as int) =~= pids@);
        assert(process_def_entries(process_def) =~= self@.process_def);
        Def { name: self.name, channel_def, process_def }
    }
}

impl Def {
    /// Every key of the definition maps is at most `MAX_KEY`.
    #[verifier::type_invariant]
    spec fn keys_in_range(self) -> bool {
        keys_bounded(self@) && defs_valid(self@)
    }

    /// Validates the channel and process definitions for one-to-one
    /// correspondence of producers and consumers to sourcepoints and
    /// endpoints; the errors come in the order of `role_errors`.
    fn define(name: &'static str, channel_def: VecMap<channel::Def>, process_def: VecMap<process::Def>) -> (r:
        Result<Self, Vec<DefineError>>)
        requires
            keys_bounded(
                DefView {
                    name: name@,
                    channel_def: channel_def_entries(channel_def),
                    process_def: process_def_entries(process_def),
                },
            ),
            defs_valid(
                DefView {
                    name: name@,
                    channel_def: channel_def_entries(channel_def),
                    process_def: process_def_entries(process_def),
                },
            ),
        ensures
            ({
                let v = DefView {
                    name: name@,
                    channel_def: channel_def_entries(channel_def),
                    process_def: process_def_entries(process_def),
                };
                &&& r is Ok <==> sourcepoints_correspond(v) && endpoints_correspond(v)
                &&& r is Ok <==> role_errors(v).len() == 0
                &&& r matches Ok(d) ==> d@ == v
                &&& r matches Err(errors) ==> errors@ == role_errors(v)
            }),
    {
        let def = Def { name, channel_def, process_def };
        let errors = def.validate_roles();
        if errors.len() == 0 {
            Ok(def)
        } else {
            Err(errors)
        }
    }

    /// The name of the session.
    pub fn name(&self) -> (r: &'static str)
        ensures
            r@ == self@.name,
    {
        self.name
    }

    /// The channel definitions, keyed by channel identifier.
    pub fn channel_def(&self) -> (r: &VecMap<channel::Def>)
        ensures
            channel_def_entries(*r) == self@.channel_def,
            defs_valid(self@),
    {
        proof {
            use_type_invariant(self);
        }
        &self.channel_def
    }

    /// The process definitions, keyed by process identifier.
    pub fn process_def(&self) -> (r: &VecMap<process::Def>)
        ensures
            process_def_entries(*r) == self@.process_def,
            defs_valid(self@),
    {
        proof {
            use_type_invariant(self);
        }
        &self.process_def
    }

    /// The channels, of the given ones in ascending order, that process `pid`
    /// produces on (`producing`) or consumes from (otherwise).
    fn channels_of(&self, cids: &Vec<usize>, pid: usize, producing: bool) -> (r: Vec<usize>)
        requires
            ascending_keys(cids@, self@.channel_def.dom()),
        ensures
            producing ==> forall|cid: usize| r@.contains(cid) <==> produces_on(self@.channel_def, pid, cid),
            !producing ==> forall|cid: usize| r@.contains(cid) <==> consumes_from(self@.channel_def, pid, cid),
    {
        let ghost channels = self@.channel_def;
        let mut r: Vec<usize> = Vec::new();
        let mut k: usize = 0;
        while k < cids.len()
            invariant
                k <= cids.len(),
                channels == self@.channel_def,
                ascending_keys(cids@, channels.dom()),
                producing ==> forall|cid: usize|
                    r@.contains(cid) <==> (cids@.subrange(0, k as int).contains(cid) && produces_on(
                        channels,
                        pid,
                        cid,
                    )),
                !producing ==> forall|cid: usize|
                    r@.contains(cid) <==> (cids@.subrange(0, k as int).contains(cid) && consumes_from(
                        channels,
                        pid,
                        cid,
                    )),
            decreases cids.len() - k,
        {
            let cid = cids[k];
            assert(channels.contains_key(cid)) by {
                assert(cids@.contains(cid));
            }
            let cdef = channel_def_map_get(&self.channel_def, cid).unwrap();
            let member = if producing {
                contains_id(cdef.producers(), pid)
            } else {
                contains_id(cdef.consumers(), pid)
            };
            if member {
                r.push(cid);
            }
            assert(cids@.subrange(0, k + 1) =~= cids@.subrange(0, k as int).push(cid));
            k = k + 1;
        }
        proof {
            assert(cids@.subrange(0, cids@.len() as int) =~= cids@);
        }
        r
    }

    /// Whether the sourcepoints (`producing`) or the endpoints (otherwise) of
    /// every process correspond to the channels.
    fn roles_correspond(&self, cids: &Vec<usize>, pids: &Vec<usize>, producing: bool) -> (r: bool)
        requires
            ascending_keys(cids@, self@.channel_def.dom()),
            ascending_keys(pids@, self@.process_def.dom()),
        ensures
            producing ==> r == sourcepoints_correspond(self@),
            !producing ==> r == endpoints_correspond(self@),
    {
        let ghost d = self@;
        let mut i: usize = 0;
        while i < pids.len()
            invariant
                i <= pids.len(),
                d == self@,
                ascending_keys(cids@, d.channel_def.dom()),
                ascending_keys(pids@, d.process_def.dom()),
                producing ==> forall|k: int| 0 <= k < i ==> sourcepoints_correspond_at(d, #[trigger] pids@[k]),
                !producing ==> forall|k: int| 0 <= k < i ==> endpoints_correspond_at(d, #[trigger] pids@[k]),
            decreases pids.len() - i,
        {
            let pid = pids[i];
            assert(d.process_def.contains_key(pid)) by {
                assert(pids@.contains(pid));
            }
            let pdef = process_def_map_get(&self.process_def, pid).unwrap();
            let from_channels = self.channels_of(cids, pid, producing);
            let matches = if producing {
                same_elements(pdef.sourcepoints(), &from_channels)
            } else {
                same_elements(pdef.endpoints(), &from_channels)
            };
            if !matches {
                proof {
                    if producing {
                        assert(!sourcepoints_correspond_at(d, pid)) by {
                            let x = choose|x: usize| !(pdef@.sourcepoints.contains(x) <==> from_channels@.contains(x));
                            assert(!(d.process_def[pid].sourcepoints.contains(x) <==> produces_on(d.channel_def, pid, x)));
                        }
                    } else {
                        assert(!endpoints_correspond_at(d, pid)) by {
                            let x = choose|x: usize| !(pdef@.endpoints.contains(x) <==> from_channels@.contains(x));
                            assert(!(d.process_def[pid].endpoints.contains(x) <==> consumes_from(d.channel_def, pid, x)));
                        }
                    }
                }
                return false;
            }
            proof {
                if producing {
                    assert forall|cid: usize|
                        d.process_def[pid].sourcepoints.contains(cid) <==> #[trigger] produces_on(d.channel_def, pid, cid) by {
                        assert(from_channels@.contains(cid) <==> produces_on(d.channel_def, pid, cid));
                    }
                } else {
                    assert forall|cid: usize|
                        d.process_def[pid].endpoints.contains(cid) <==> #[trigger] consumes_from(d.channel_def, pid, cid) by {
                        assert(from_channels@.contains(cid) <==> consumes_from(d.channel_def, pid, cid));
                    }
                }
            }
            i = i + 1;
        }
        proof {
            if producing {
                assert forall|pid: usize| #[trigger] d.process_def.contains_key(pid) implies sourcepoints_correspond_at(d, pid) by {
                    assert(pids@.contains(pid));
                    let k = choose|k: int| 0 <= k < pids@.len() && pids@[k] == pid;
                    assert(sourcepoints_correspond_at(d, pids@[k]));
                }
            } else {
                assert forall|pid: usize| #[trigger] d.process_def.contains_key(pid) implies endpoints_correspond_at(d, pid) by {
                    assert(pids@.contains(pid));
                    let k = choose|k: int| 0 <= k < pids@.len() && pids@[k] == pid;
                    assert(endpoints_correspond_at(d, pids@[k]));
                }
            }
        }
        true
    }

    /// All the errors of this definition, in the order of `role_errors`.
    fn validate_roles(&self) -> (errors: Vec<DefineError>)
        ensures
            errors@ == role_errors(self@),
    {
        let cids = channel_def_map_keys(&self.channel_def);
        let pids = process_def_map_keys(&self.process_def);
        let mut errors: Vec<DefineError> = Vec::new();
        if !self.roles_correspond(&cids, &pids, true) {
            errors.push(DefineError::ProducerSourcepointMismatch);
        }
        if !self.roles_correspond(&cids, &pids, false) {
            errors.push(DefineError::ConsumerEndpointMismatch);
        }
        errors
    }
}

/// The channel definitions of a context, keyed by their position.
pub open spec fn indexed_channel_defs(s: Seq<channel::Def>) -> Map<usize, channel::DefView> {
    Map::new(|k: usize| k < s.len(), |k: usize| s[k as int]@)
}

/// The process definitions of a context, keyed by their position.
pub open spec fn indexed_process_defs(s: Seq<process::Def>) -> Map<usize, process::DefView> {
    Map::new(|k: usize| k < s.len(), |k: usize| s[k as int]@)
}

/// The types and names that a session context declares: its name, the main
/// process if there is one, the definition of each channel and process (at the
/// position of its identifier), and the labels that the data-flow diagram
/// shows.
#[derive(Clone, Debug)]
pub struct Context {
    /// The name of the context.
    pub name: &'static str,
    /// The process that runs on the calling thread, if any.
    pub maybe_main: Option<usize>,
    /// The definition of each channel, at the position of its identifier.
    pub channel_defs: Vec<channel::Def>,
    /// The definition of each process, at the position of its identifier.
    pub process_defs: Vec<process::Def>,
    /// The name of each process.
    pub process_names: Vec<&'static str>,
    /// The name of each channel.
    pub channel_names: Vec<&'static str>,
    /// The names of the data fields of each process.
    pub process_field_names: Vec<Vec<&'static str>>,
    /// The types of the data fields of each process.
    pub process_field_types: Vec<Vec<&'static str>>,
    /// The default expressions of the data fields of each process.
    pub process_field_defaults: Vec<Vec<&'static str>>,
    /// The result type of each process, empty where it has none.
    pub process_result_types: Vec<&'static str>,
    /// The default expression of the result of each process.
    pub process_result_defaults: Vec<&'static str>,
    /// The local message type of each channel.
    pub channel_local_types: Vec<&'static str>,
}

/// Every identifier in the definitions of a context names one of its
/// channels or processes, as identifiers that are variants of the context's
/// identifier enums do.
pub open spec fn ids_in_range(ctx: Context) -> bool {
    let np = ctx.process_defs@.len();
    let nc = ctx.channel_defs@.len();
    &&& forall|i: int, k: int|
        0 <= i < nc && 0 <= k < ctx.channel_defs@[i]@.producers.len() ==> #[trigger] ctx.channel_defs@[i]@.producers[k]
            < np
    &&& forall|i: int, k: int|
        0 <= i < nc && 0 <= k < ctx.channel_defs@[i]@.consumers.len() ==> #[trigger] ctx.channel_defs@[i]@.consumers[k]
            < np
    &&& forall|i: int, k: int|
        0 <= i < np && 0 <= k < ctx.process_defs@[i]@.sourcepoints.len() ==> #[trigger] ctx.process_defs@[
            i
        ]@.sourcepoints[k] < nc
    &&& forall|i: int, k: int|
        0 <= i < np && 0 <= k < ctx.process_defs@[i]@.endpoints.len() ==> #[trigger] ctx.process_defs@[
            i
        ]@.endpoints[k] < nc
}

impl Context {
    /// The session definition of this context, if the context is valid: the
    /// channel and process definitions keyed by their position, validated as
    /// by `role_errors`.
    pub fn def(&self) -> (r: Result<Def, Vec<DefineError>>)
        requires
            self.channel_defs.len() <= MAX_KEY + 1,
            self.process_defs.len() <= MAX_KEY + 1,
            ids_in_range(*self),
        ensures
            ({
                let v = DefView {
                    name: self.name@,
                    channel_def: indexed_channel_defs(self.channel_defs@),
                    process_def: indexed_process_defs(self.process_defs@),
                };
                &&& r is Ok <==> sourcepoints_correspond(v) && endpoints_correspond(v)
                &&& r is Ok <==> role_errors(v).len() == 0
                &&& r matches Ok(d) ==> d@ == v
                &&& r matches Err(errors) ==> errors@ == role_errors(v)
            }),
    {
        let mut channel_def = channel_def_map_new();
        let mut i: usize = 0;
        while i < self.channel_defs.len()
            invariant
                i <= self.channel_defs.len() <= MAX_KEY + 1,
                forall|k: usize|
                    #[trigger] channel_def_entries(channel_def).contains_key(k) <==> k < i,
                forall|k: usize|
                    #[trigger] channel_def_entries(channel_def).contains_key(k) ==> channel_def_entries(channel_def)[k]
                        == self.channel_defs@[k as int]@,
                forall|k: usize|
                    #[trigger] channel_def_entries(channel_def).contains_key(k) ==> channel::valid_roles(
                        channel_def_entries(channel_def)[k].kind,
                        channel_def_entries(channel_def)[k].producers,
                        channel_def_entries(channel_def)[k].consumers,
                    ),
            decreases self.channel_defs.len() - i,
        {
            let prev = channel_def_map_insert(&mut channel_def, i, self.channel_defs[i].clone());
            assert(prev is None);
            i = i + 1;
        }
        assert(channel_def_entries(channel_def) =~= indexed_channel_defs(self.channel_defs@));
        let mut process_def = process_def_map_new();
        let mut i: usize = 0;
        while i < self.process_defs.len()
            invariant
                i <= self.process_defs.len() <= MAX_KEY + 1,
                forall|k: usize|
                    #[trigger] process_def_entries(process_def).contains_key(k) <==> k < i,
                forall|k: usize|
                    #[trigger] process_def_entries(process_def).contains_key(k) ==> process_def_entries(process_def)[k]
                        == self.process_defs@[k as int]@,
                forall|k: usize|
                    #[trigger] process_def_entries(process_def).contains_key(k) ==> process::valid_roles(
                        process_def_entries(process_def)[k].kind,
                        process_def_entries(process_def)[k].sourcepoints,
                        process_def_entries(process_def)[k].endpoints,
                    ),
            decreases self.process_defs.len() - i,
        {
            let prev = process_def_map_insert(&mut process_def, i, self.process_defs[i].clone());
            assert(prev is None);
            i = i + 1;
        }
        assert(process_def_entries(process_def) =~= indexed_process_defs(self.process_defs@));
        Def::define(self.name, channel_def, process_def)
    }
}

/// How a session obtains the handle of one of its processes when it starts.
#[derive(Clone, Copy, Debug, PartialEq, Eq, Structural)]
pub enum Start {
    /// The process runs on from a previous session, whose handle is given.
    Continue,
    /// The process is the main process: it is created, not spawned, and runs
    /// on the calling thread.
    Main,
    /// The process is created and spawned on a thread of its own.
    Spawn,
}

/// How process `pid`, with identifier `id`, is started.
pub open spec fn start_of(pid: usize, id: usize, continued: Seq<usize>, maybe_main: Option<usize>) -> Start {
    if continued.contains(pid) {
        Start::Continue
    } else if maybe_main == Some(id) {
        Start::Main
    } else {
        Start::Spawn
    }
}

/// A session: its definition and its state in the life cycle `Ready`,
/// `Running`, `Ended`.
#[derive(Debug)]
pub struct Session {
    def: Def,
    state: StateId,
}

impl Session {
    /// The definition of the session.
    pub closed spec fn spec_def(&self) -> DefView {
        self.def@
    }

    /// The state of the session.
    pub closed spec fn spec_state(&self) -> StateId {
        self.state
    }

    /// A session in state `Ready`.
    pub fn new(def: Def) -> (r: Self)
        ensures
            r.spec_def() == def@,
            r.spec_state() == StateId::Ready,
    {
        Session { def, state: StateId::Ready }
    }

    /// The definition of the session.
    pub fn def(&self) -> (r: &Def)
        ensures
            r@ == self.spec_def(),
    {
        &self.def
    }

    /// The name of the session.
    pub fn name(&self) -> (r: &'static str)
        ensures
            r@ == self.spec_def().name,
    {
        self.def.name()
    }

    /// The state of the session.
    pub fn state_id(&self) -> (r: StateId)
        ensures
            r == self.spec_state(),
    {
        self.state
    }

    /// Handles an event of the life cycle; a refused event leaves the session
    /// unchanged.
    pub fn handle_event(&mut self, event: EventId) -> (r: Result<(), HandleEventException>)
        ensures
            final(self).spec_def() == old(self).spec_def(),
            r is Ok <==> next_state(old(self).spec_state(), event) is Some,
            r is Ok ==> final(self).spec_state() == next_state(old(self).spec_state(), event)->0,
            r is Err ==> final(self).spec_state() == old(self).spec_state()
                && r == Err::<(), _>(HandleEventException::WrongState),
    {
        handle_event(&mut self.state, event)
    }

    /// How each process is started, in ascending order of process identifier:
    /// a process whose handle is given (`continued`) runs on; otherwise the
    /// main process is created on the calling thread, and every other process
    /// is spawned.
    pub fn start_plan(&self, continued: &Vec<usize>, maybe_main: Option<usize>) -> (r: Vec<(usize, Start)>)
        ensures
            ascending_keys(r@.map_values(|e: (usize, Start)| e.0), self.spec_def().process_def.dom()),
            forall|i: int|
                0 <= i < r@.len() ==> (#[trigger] r@[i]).1 == start_of(
                    r@[i].0,
                    self.spec_def().process_def[r@[i].0].id,
                    continued@,
                    maybe_main,
                ),
    {
        let pids = process_def_map_keys(&self.def.process_def);
        let ghost d = self.spec_def();
        let mut r: Vec<(usize, Start)> = Vec::new();
        let mut i: usize = 0;
        while i < pids.len()
            invariant
                i <= pids.len(),
                d == self.spec_def(),
                ascending_keys(pids@, d.process_def.dom()),
                r@.len() == i,
                forall|k: int| 0 <= k < i ==> (#[trigger] r@[k]).0 == pids@[k],
                forall|k: int|
                    0 <= k < i ==> (#[trigger] r@[k]).1 == start_of(
                        r@[k].0,
                        d.process_def[r@[k].0].id,
                        continued@,
                        maybe_main,
                    ),
            decreases pids.len() - i,
        {
            let pid = pids[i];
            assert(d.process_def.contains_key(pid)) by {
                assert(pids@.contains(pid));
            }
            let pdef = process_def_map_get(&self.def.process_def, pid).unwrap();
            let start = if contains_id(continued, pid) {
                Start::Continue
            } else {
                match maybe_main {
                    Some(main_id) => if *pdef.id() == main_id {
                        Start::Main
                    } else {
                        Start::Spawn
                    },
                    None => Start::Spawn,
                }
            };
            r.push((pid, start));
            i = i + 1;
        }
        assert(r@.map_values(|e: (usize, Start)| e.0) =~= pids@);
        r
    }
}

} // verus!
