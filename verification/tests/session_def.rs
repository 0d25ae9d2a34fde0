use apis::channel;
use apis::lifecycle::{EventId, HandleEventException, StateId};
use apis::process;
use apis::session::{Context, DefineError, Session, Start};

fn sync() -> process::Kind {
    process::Kind::default_synchronous()
}

fn channel_def(id: usize, kind: channel::Kind, producers: Vec<usize>, consumers: Vec<usize>) -> channel::Def {
    channel::Def::define(id, kind, producers, consumers, id).unwrap()
}

fn process_def(id: usize, kind: process::Kind, sourcepoints: Vec<usize>, endpoints: Vec<usize>) -> process::Def {
    process::Def::define(id, kind, sourcepoints, endpoints).unwrap()
}

/// A context with the given definitions and with labels for every process and
/// channel.
fn context(name: &'static str, channel_defs: Vec<channel::Def>, process_defs: Vec<process::Def>) -> Context {
    let np = process_defs.len();
    let nc = channel_defs.len();
    Context {
        name,
        maybe_main: None,
        channel_defs,
        process_defs,
        process_names: vec!["A", "B", "C", "D"][..np].to_vec(),
        channel_names: vec!["X", "Y", "Z"][..nc].to_vec(),
        process_field_names: vec![vec![]; np],
        process_field_types: vec![vec![]; np],
        process_field_defaults: vec![vec![]; np],
        process_result_types: vec![""; np],
        process_result_defaults: vec![""; np],
        channel_local_types: vec!["T", "U", "V"][..nc].to_vec(),
    }
}

// identifiers
const A: usize = 0;
const B: usize = 1;
const C: usize = 2;
const D: usize = 3;
const X: usize = 0;
const Y: usize = 1;
const Z: usize = 2;

#[test]
fn session_producer_sourcepoint_mismatch() {
    let ctx = context(
        "Mycontext",
        vec![
            channel_def(X, channel::Kind::Simplex, vec![A], vec![B]),
            channel_def(Y, channel::Kind::Sink, vec![A], vec![B]),
        ],
        vec![process_def(A, sync(), vec![X], vec![]), process_def(B, sync(), vec![], vec![X, Y])],
    );
    assert_eq!(ctx.def().err(), Some(vec![DefineError::ProducerSourcepointMismatch]));
}

#[test]
fn session_consumer_endpoint_mismatch() {
    let ctx = context(
        "Mycontext",
        vec![
            channel_def(X, channel::Kind::Simplex, vec![A], vec![B]),
            channel_def(Y, channel::Kind::Sink, vec![A], vec![B]),
        ],
        vec![process_def(A, sync(), vec![X, Y], vec![]), process_def(B, sync(), vec![], vec![X])],
    );
    assert_eq!(ctx.def().err(), Some(vec![DefineError::ConsumerEndpointMismatch]));
}

#[test]
fn session_mock_context_is_mismatched() {
    // the mock context: processes without sourcepoints or endpoints, and
    // channels from A to B
    let ctx = context(
        "Mycontext",
        vec![
            channel_def(X, channel::Kind::Simplex, vec![A], vec![B]),
            channel_def(Y, channel::Kind::Source, vec![A], vec![B]),
            channel_def(Z, channel::Kind::Sink, vec![A], vec![B]),
        ],
        vec![
            process_def(A, sync(), vec![], vec![]),
            process_def(B, sync(), vec![], vec![]),
            process_def(C, sync(), vec![], vec![]),
            process_def(D, sync(), vec![], vec![]),
        ],
    );
    assert_eq!(
        ctx.def().err(),
        Some(vec![DefineError::ProducerSourcepointMismatch, DefineError::ConsumerEndpointMismatch])
    );
}

#[test]
fn session_correspondence_ignores_order() {
    let ctx = context(
        "Mycontext",
        vec![
            channel_def(X, channel::Kind::Simplex, vec![A], vec![B]),
            channel_def(Y, channel::Kind::Source, vec![A], vec![B, C]),
            channel_def(Z, channel::Kind::Sink, vec![B, C], vec![A]),
        ],
        vec![
            process_def(A, sync(), vec![Y, X], vec![Z]),
            process_def(B, sync(), vec![Z], vec![Y, X]),
            process_def(C, sync(), vec![Z], vec![Y]),
        ],
    );
    let def = ctx.def().unwrap();
    assert_eq!(def.name(), "Mycontext");
    assert_eq!(def.channel_def().len(), 3);
    assert_eq!(def.process_def().len(), 3);
    assert_eq!(*def.process_def()[B].sourcepoints(), vec![Z]);
    assert_eq!(*def.channel_def()[Y].consumers(), vec![B, C]);
    assert_eq!(def.clone(), def);
}

fn demo() -> Context {
    const GEN: usize = 0;
    const SUM: usize = 1;
    const LOG: usize = 2;
    const INTS: usize = 0;
    const DONE: usize = 1;
    const ECHO: usize = 2;
    Context {
        name: "Demo",
        maybe_main: Some(LOG),
        channel_defs: vec![
            channel_def(INTS, channel::Kind::Source, vec![GEN], vec![SUM, LOG]),
            channel_def(DONE, channel::Kind::Sink, vec![SUM, LOG], vec![GEN]),
            channel_def(ECHO, channel::Kind::Simplex, vec![LOG], vec![SUM]),
        ],
        process_defs: vec![
            process_def(GEN, process::Kind::new_synchronous(20, 1).unwrap(), vec![INTS], vec![DONE]),
            process_def(SUM, process::Kind::default_asynchronous_polling(), vec![DONE], vec![INTS, ECHO]),
            process_def(LOG, process::Kind::default_asynchronous(), vec![DONE, ECHO], vec![INTS]),
        ],
        process_names: vec!["Gen", "Sum", "Log"],
        channel_names: vec!["Ints", "Done", "Echo"],
        process_field_names: vec![vec!["update_count"], vec!["sum", "history"], vec![]],
        process_field_types: vec![vec!["u64"], vec!["u64", "Vec<u64>"], vec![]],
        process_field_defaults: vec![vec!["0"], vec!["0", "Vec::new()"], vec![]],
        process_result_types: vec!["", "u64", ""],
        process_result_defaults: vec!["", "0", ""],
        channel_local_types: vec!["Intsmessage", "Donemessage", "Option<u8>"],
    }
}

const DOT_HEAD: &str = "digraph {\n  overlap=scale\n  rankdir=LR\n  node [shape=hexagon, fontname=\"Sans Bold\"]\n  edge [style=dashed, arrowhead=vee, fontname=\"Sans\"]\n  subgraph cluster_Demo {\n    label=<Demo>\n    shape=record\n    style=rounded\n    fontname=\"Sans Bold Italic\"\n";

const DOT_CHANNELS: &str = "    Ints [label=<<B>+</B>>,\n      shape=diamond, style=\"\",\n      xlabel=<<FONT FACE=\"Sans Italic\">Ints &lt;Intsmessage&gt;</FONT>>]\n    Gen -> Ints []\n    Ints -> Sum []\n    Ints -> Log []\n    Done [label=<<B>+</B>>,\n      shape=diamond, style=\"\",\n      xlabel=<<FONT FACE=\"Sans Italic\">Done &lt;Donemessage&gt;</FONT>>]\n    Done -> Gen []\n    Sum -> Done []\n    Log -> Done []\n    Log -> Sum [label=<<FONT FACE=\"Sans Italic\">Echo &lt;Option&lt;u8&gt;&gt;</FONT>>]\n  }\n}";

#[test]
fn session_dotfile_hides_defaults() {
    let ctx = demo();
    let def = ctx.def().unwrap();
    let expected = String::new()
        + DOT_HEAD
        + "    Gen [label=<<TABLE BORDER=\"0\"><TR><TD><B>Gen</B></TD></TR><TR><TD><FONT FACE=\"Mono\"><BR/>update_count : u64<BR ALIGN=\"LEFT\"/></FONT></TD></TR></TABLE>>]\n"
        + "    Sum [label=<<TABLE BORDER=\"0\"><TR><TD><B>Sum</B></TD></TR><TR><TD><FONT FACE=\"Mono\"><BR/>sum     : u64,<BR ALIGN=\"LEFT\"/>history : Vec&lt;u64&gt;<BR ALIGN=\"LEFT\"/></FONT></TD></TR><TR><TD><FONT FACE=\"Mono\"><BR/>-&gt; u64<BR ALIGN=\"LEFT\"/></FONT></TD></TR></TABLE>>]\n"
        + "    Log [label=<<TABLE BORDER=\"0\"><TR><TD><B>Log</B></TD></TR></TABLE>>]\n"
        + DOT_CHANNELS;
    assert_eq!(def.dotfile(&ctx), expected);
}

#[test]
fn session_dotfile_shows_defaults() {
    let ctx = demo();
    let def = ctx.def().unwrap();
    let expected = String::new()
        + DOT_HEAD
        + "    Gen [label=<<TABLE BORDER=\"0\"><TR><TD><B>Gen</B></TD></TR><TR><TD><FONT FACE=\"Mono\"><BR/>update_count : u64 &#61; 0<BR ALIGN=\"LEFT\"/></FONT></TD></TR></TABLE>>]\n"
        + "    Sum [label=<<TABLE BORDER=\"0\"><TR><TD><B>Sum</B></TD></TR><TR><TD><FONT FACE=\"Mono\"><BR/>sum     : u64      &#61; 0,<BR ALIGN=\"LEFT\"/>history : Vec&lt;u64&gt; &#61; Vec::new&#40;&#41;<BR ALIGN=\"LEFT\"/></FONT></TD></TR><TR><TD><FONT FACE=\"Mono\"><BR/>-&gt; u64 &#61; 0<BR ALIGN=\"LEFT\"/></FONT></TD></TR></TABLE>>]\n"
        + "    Log [label=<<TABLE BORDER=\"0\"><TR><TD><B>Log</B></TD></TR></TABLE>>]\n"
        + DOT_CHANNELS;
    assert_eq!(def.dotfile_show_defaults(&ctx), expected);
}

#[test]
fn session_dotfile_result_without_fields() {
    let mut ctx = context(
        "Single",
        vec![],
        vec![process_def(A, sync(), vec![], vec![])],
    );
    ctx.process_result_types = vec!["bool"];
    ctx.process_result_defaults = vec!["false"];
    let def = ctx.def().unwrap();
    let expected = "digraph {\n  overlap=scale\n  rankdir=LR\n  node [shape=hexagon, fontname=\"Sans Bold\"]\n  edge [style=dashed, arrowhead=vee, fontname=\"Sans\"]\n  subgraph cluster_Single {\n    label=<Single>\n    shape=record\n    style=rounded\n    fontname=\"Sans Bold Italic\"\n    A [label=<<TABLE BORDER=\"0\"><TR><TD><B>A</B></TD></TR><TR><TD><FONT FACE=\"Mono\"><BR/>-&gt; bool &#61; false<BR ALIGN=\"LEFT\"/></FONT></TD></TR></TABLE>>]\n  }\n}";
    assert_eq!(def.dotfile_show_defaults(&ctx), expected);
}

#[test]
fn session_start_plan() {
    let ctx = demo();
    let session = Session::new(ctx.def().unwrap());
    assert_eq!(session.name(), "Demo");
    assert_eq!(
        session.start_plan(&vec![1], ctx.maybe_main),
        vec![(0, Start::Spawn), (1, Start::Continue), (2, Start::Main)]
    );
    assert_eq!(
        session.start_plan(&vec![], None),
        vec![(0, Start::Spawn), (1, Start::Spawn), (2, Start::Spawn)]
    );
    assert_eq!(
        session.start_plan(&vec![2, 0], Some(2)),
        vec![(0, Start::Continue), (1, Start::Spawn), (2, Start::Continue)]
    );
}

#[test]
fn session_life_cycle() {
    let mut session = Session::new(demo().def().unwrap());
    assert_eq!(session.state_id(), StateId::Ready);
    assert_eq!(session.handle_event(EventId::End), Err(HandleEventException::WrongState));
    assert_eq!(session.state_id(), StateId::Ready);
    assert_eq!(session.handle_event(EventId::Run), Ok(()));
    assert_eq!(session.state_id(), StateId::Running);
    assert_eq!(session.handle_event(EventId::Run), Err(HandleEventException::WrongState));
    assert_eq!(session.handle_event(EventId::End), Ok(()));
    assert_eq!(session.state_id(), StateId::Ended);
    assert_eq!(session.handle_event(EventId::End), Err(HandleEventException::WrongState));
    assert_eq!(session.handle_event(EventId::Run), Err(HandleEventException::WrongState));
    assert_eq!(session.state_id(), StateId::Ended);
    assert_eq!(session.def().name(), "Demo");
}

#[test]
fn session_asynchronous_process_consumes_once() {
    let def = demo().def().unwrap();
    // Log is the one asynchronous process of the demo: it consumes from Ints
    // alone
    let log = &def.process_def()[2];
    assert_eq!(*log.kind(), process::Kind::Asynchronous { messages_per_update: 1 });
    assert_eq!(*log.endpoints(), vec![0]);
    let consumed: Vec<usize> = def
        .channel_def()
        .iter()
        .filter(|(_, c)| c.consumers().contains(&2))
        .map(|(cid, _)| cid)
        .collect();
    assert_eq!(consumed, vec![0]);
}
