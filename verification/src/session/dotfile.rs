//! The data-flow diagram of a session, as a graphviz DOT file: a node for each
//! process, showing its data fields and its result; an edge for each simplex
//! channel; and a node with edges for each source or sink channel.

use vstd::prelude::*;
use vstd::string::StringExecFns;
use vstd::string::StringSliceAdditionalSpecFns;
use crate::channel;
use crate::escape::{escape, escape_html};
use crate::session::{Def, DefView, Context};
use crate::vec_maps::{
    sorted_keys, lemma_sorted_keys, channel_def_map_keys, channel_def_map_get, process_def_map_keys,
    process_def_map_get,
};

verus! {

/// The length in bytes of a string, as `str::len` gives it.
pub open spec fn str_len(s: &str) -> nat {
    (s.spec_bytes().len() as usize) as nat
}

/// `n` spaces.
pub open spec fn spaces(n: nat) -> Seq<char> {
    Seq::new(n, |i: int| ' ')
}

/// The greatest length in bytes of the given strings, 0 for none.
pub open spec fn max_len(s: Seq<&'static str>) -> nat
    decreases s.len(),
{
    if s.len() == 0 {
        0
    } else {
        let m = max_len(s.drop_last());
        let l = str_len(s.last());
        if m < l {
            l
        } else {
            m
        }
    }
}

/// The line of a data field: its name, padded to the longest field name, its
/// type and, unless defaults are hidden, padded to the longest type, its
/// default expression; escaped.
pub open spec fn field_line(
    name: &'static str,
    ty: &'static str,
    default: &'static str,
    longest_name: nat,
    longest_type: nat,
    hide_defaults: bool,
) -> Seq<char> {
    let name_pad = spaces((longest_name - str_len(name)) as nat);
    let type_pad = spaces((longest_type - str_len(ty)) as nat);
    if hide_defaults {
        escape(name@ + name_pad + " : "@ + ty@)
    } else {
        escape(name@ + name_pad + " : "@ + ty@ + type_pad + " = "@ + default@)
    }
}

/// The lines of the first `n` data fields, separated by left-aligned line
/// breaks.
pub open spec fn field_lines(
    names: Seq<&'static str>,
    types: Seq<&'static str>,
    defaults: Seq<&'static str>,
    n: nat,
    hide_defaults: bool,
) -> Seq<char>
    decreases n,
{
    let line = |i: int|
        field_line(names[i], types[i], defaults[i], max_len(names), max_len(types), hide_defaults);
    if n == 0 {
        Seq::empty()
    } else if n == 1 {
        line(0)
    } else {
        field_lines(names, types, defaults, (n - 1) as nat, hide_defaults) + ",<BR ALIGN=\"LEFT\"/>"@ + line(
            n - 1,
        )
    }
}

/// The name that the diagram shows for process `pid`.
pub open spec fn process_label(ctx: Context, pid: usize) -> Seq<char> {
    ctx.process_names@[pid as int]@
}

/// The node of process `pid`, whose definition is `p`: a table with its name,
/// the lines of its data fields and the line of its result type, if any.
pub open spec fn process_node(ctx: Context, pid: usize, p: crate::process::DefView, hide_defaults: bool) -> Seq<
    char,
> {
    let name = process_label(ctx, p.id);
    let names = ctx.process_field_names@[pid as int]@;
    let types = ctx.process_field_types@[pid as int]@;
    let defaults = ctx.process_field_defaults@[pid as int]@;
    let result_type = ctx.process_result_types@[pid as int]@;
    let result_default = ctx.process_result_defaults@[pid as int]@;
    let has_fields = names.len() > 0;
    let has_result = result_type.len() > 0;
    let fields = if has_fields {
        "<TR><TD><FONT FACE=\"Mono\"><BR/>"@ + field_lines(names, types, defaults, names.len(), hide_defaults)
    } else {
        Seq::empty()
    };
    let result = if has_result {
        (if has_fields {
            "<BR ALIGN=\"LEFT\"/></FONT></TD></TR><TR><TD><FONT FACE=\"Mono\"><BR/>"@
        } else {
            "<TR><TD><FONT FACE=\"Mono\"><BR/>"@
        }) + (if hide_defaults {
            escape("-> "@ + result_type)
        } else {
            escape("-> "@ + result_type + " = "@ + result_default)
        })
    } else {
        Seq::empty()
    };
    let close = if has_fields || has_result {
        "<BR ALIGN=\"LEFT\"/></FONT></TD></TR>"@
    } else {
        Seq::empty()
    };
    "    "@ + name + " [label=<<TABLE BORDER=\"0\"><TR><TD><B>"@ + name + "</B></TD></TR>"@ + fields + result
        + close + "</TABLE>>]\n"@
}

/// The nodes of the processes `pids`, in order.
pub open spec fn process_nodes(ctx: Context, d: DefView, pids: Seq<usize>, hide_defaults: bool) -> Seq<char>
    decreases pids.len(),
{
    if pids.len() == 0 {
        Seq::empty()
    } else {
        process_nodes(ctx, d, pids.drop_last(), hide_defaults) + process_node(
            ctx,
            pids.last(),
            d.process_def[pids.last()],
            hide_defaults,
        )
    }
}

/// An edge.
pub open spec fn edge(from: Seq<char>, to: Seq<char>) -> Seq<char> {
    "    "@ + from + " -> "@ + to + " []\n"@
}

/// The edges from `from` to each of the processes `pids`, in order.
pub open spec fn edges_from(ctx: Context, from: Seq<char>, pids: Seq<usize>) -> Seq<char>
    decreases pids.len(),
{
    if pids.len() == 0 {
        Seq::empty()
    } else {
        edges_from(ctx, from, pids.drop_last()) + edge(from, process_label(ctx, pids.last()))
    }
}

/// The edges from each of the processes `pids`, in order, to `to`.
pub open spec fn edges_to(ctx: Context, pids: Seq<usize>, to: Seq<char>) -> Seq<char>
    decreases pids.len(),
{
    if pids.len() == 0 {
        Seq::empty()
    } else {
        edges_to(ctx, pids.drop_last(), to) + edge(process_label(ctx, pids.last()), to)
    }
}

/// The node of a source or sink channel.
pub open spec fn channel_node(name: Seq<char>, label: Seq<char>) -> Seq<char> {
    "    "@ + name + " [label=<<B>+</B>>,\n      shape=diamond, style=\"\",\n      xlabel=<<FONT FACE=\"Sans Italic\">"@
        + label + "</FONT>>]\n"@
}

/// The part of channel `cid`, whose definition is `c`: a labelled edge for a
/// simplex channel; for a source, a node with an edge from its producer and
/// one to each consumer; for a sink, a node with an edge to its consumer and
/// one from each producer.
pub open spec fn channel_part(ctx: Context, cid: usize, c: channel::DefView) -> Seq<char> {
    let name = ctx.channel_names@[c.id as int]@;
    let label = escape(name + " <"@ + ctx.channel_local_types@[cid as int]@ + ">"@);
    match c.kind {
        channel::Kind::Simplex => "    "@ + process_label(ctx, c.producers[0]) + " -> "@ + process_label(
            ctx,
            c.consumers[0],
        ) + " [label=<<FONT FACE=\"Sans Italic\">"@ + label + "</FONT>>]\n"@,
        channel::Kind::Source => channel_node(name, label) + edge(process_label(ctx, c.producers[0]), name)
            + edges_from(ctx, name, c.consumers),
        channel::Kind::Sink => channel_node(name, label) + edge(name, process_label(ctx, c.consumers[0]))
            + edges_to(ctx, c.producers, name),
    }
}

/// The parts of the channels `cids`, in order.
pub open spec fn channel_parts(ctx: Context, d: DefView, cids: Seq<usize>) -> Seq<char>
    decreases cids.len(),
{
    if cids.len() == 0 {
        Seq::empty()
    } else {
        channel_parts(ctx, d, cids.drop_last()) + channel_part(ctx, cids.last(), d.channel_def[cids.last()])
    }
}

/// The opening of the diagram, up to the subgraph of the session.
pub open spec fn dot_header(name: Seq<char>) -> Seq<char> {
    "digraph {\n  overlap=scale\n  rankdir=LR\n  node [shape=hexagon, fontname=\"Sans Bold\"]\n  edge [style=dashed, arrowhead=vee, fontname=\"Sans\"]\n"@
        + "  subgraph cluster_"@ + name + " {\n"@ + "    label=<"@ + name + ">"@
        + "\n    shape=record\n    style=rounded\n    fontname=\"Sans Bold Italic\"\n"@
}

/// The data-flow diagram of session definition `d` with the labels of `ctx`:
/// the processes in ascending order of identifier, then the channels in
/// ascending order of identifier.
pub open spec fn session_dot(ctx: Context, d: DefView, hide_defaults: bool) -> Seq<char> {
    dot_header(d.name) + process_nodes(ctx, d, sorted_keys(d.process_def.dom()), hide_defaults)
        + channel_parts(ctx, d, sorted_keys(d.channel_def.dom())) + "  }\n}"@
}

/// The labels of `ctx` cover every process and channel of `d`: each has a
/// name, the per-process lists have an entry for each process, and the names,
/// types and defaults of the fields of a process come in equal numbers.
pub open spec fn labels_cover(ctx: Context, d: DefView) -> bool {
    &&& forall|pid: usize|
        #[trigger] d.process_def.contains_key(pid) ==> {
            &&& pid < ctx.process_field_names@.len()
            &&& pid < ctx.process_field_types@.len()
            &&& pid < ctx.process_field_defaults@.len()
            &&& pid < ctx.process_result_types@.len()
            &&& pid < ctx.process_result_defaults@.len()
            &&& ctx.process_field_names@[pid as int]@.len() == ctx.process_field_types@[pid as int]@.len()
            &&& ctx.process_field_types@[pid as int]@.len() == ctx.process_field_defaults@[pid as int]@.len()
            &&& d.process_def[pid].id < ctx.process_names@.len()
        }
    &&& forall|cid: usize|
        #[trigger] d.channel_def.contains_key(cid) ==> {
            &&& cid < ctx.channel_local_types@.len()
            &&& d.channel_def[cid].id < ctx.channel_names@.len()
            &&& forall|i: int|
                0 <= i < d.channel_def[cid].producers.len() ==> d.channel_def[cid].producers[i]
                    < ctx.process_names@.len()
            &&& forall|i: int|
                0 <= i < d.channel_def[cid].consumers.len() ==> d.channel_def[cid].consumers[i]
                    < ctx.process_names@.len()
        }
}

/// A context labels each of its processes and channels: one name and one
/// entry of each per-process list for each process definition, one name and
/// one local type for each channel definition, as many names, types and
/// defaults for the fields of each process, and every identifier in the
/// definitions within range.
pub open spec fn labels_complete(ctx: Context) -> bool {
    let np = ctx.process_defs@.len();
    let nc = ctx.channel_defs@.len();
    &&& ctx.process_names@.len() == np
    &&& ctx.process_field_names@.len() == np
    &&& ctx.process_field_types@.len() == np
    &&& ctx.process_field_defaults@.len() == np
    &&& ctx.process_result_types@.len() == np
    &&& ctx.process_result_defaults@.len() == np
    &&& ctx.channel_names@.len() == nc
    &&& ctx.channel_local_types@.len() == nc
    &&& forall|i: int|
        0 <= i < np ==> {
            &&& ctx.process_field_names@[i]@.len() == ctx.process_field_types@[i]@.len()
            &&& ctx.process_field_types@[i]@.len() == ctx.process_field_defaults@[i]@.len()
            &&& (#[trigger] ctx.process_defs@[i])@.id < np
        }
    &&& forall|i: int|
        0 <= i < nc ==> {
            &&& (#[trigger] ctx.channel_defs@[i])@.id < nc
            &&& forall|k: int| 0 <= k < ctx.channel_defs@[i]@.producers.len() ==> ctx.channel_defs@[i]@.producers[k] < np
            &&& forall|k: int| 0 <= k < ctx.channel_defs@[i]@.consumers.len() ==> ctx.channel_defs@[i]@.consumers[k] < np
        }
}

/// The labels of a context that labels each of its processes and channels
/// cover the session definition of the context, so its data-flow diagram can
/// be drawn.
pub proof fn lemma_complete_labels_cover(ctx: Context)
    requires
        labels_complete(ctx),
    ensures
        labels_cover(
            ctx,
            DefView {
                name: ctx.name@,
                channel_def: crate::session::indexed_channel_defs(ctx.channel_defs@),
                process_def: crate::session::indexed_process_defs(ctx.process_defs@),
            },
        ),
{
    let d = DefView {
        name: ctx.name@,
        channel_def: crate::session::indexed_channel_defs(ctx.channel_defs@),
        process_def: crate::session::indexed_process_defs(ctx.process_defs@),
    };
    assert forall|pid: usize| #[trigger] d.process_def.contains_key(pid) implies {
        &&& pid < ctx.process_field_names@.len()
        &&& pid < ctx.process_field_types@.len()
        &&& pid < ctx.process_field_defaults@.len()
        &&& pid < ctx.process_result_types@.len()
        &&& pid < ctx.process_result_defaults@.len()
        &&& ctx.process_field_names@[pid as int]@.len() == ctx.process_field_types@[pid as int]@.len()
        &&& ctx.process_field_types@[pid as int]@.len() == ctx.process_field_defaults@[pid as int]@.len()
        &&& d.process_def[pid].id < ctx.process_names@.len()
    } by {
        assert(ctx.process_defs@[pid as int]@.id < ctx.process_defs@.len());
    }
    assert forall|cid: usize| #[trigger] d.channel_def.contains_key(cid) implies {
        &&& cid < ctx.channel_local_types@.len()
        &&& d.channel_def[cid].id < ctx.channel_names@.len()
        &&& forall|i: int|
            0 <= i < d.channel_def[cid].producers.len() ==> d.channel_def[cid].producers[i]
                < ctx.process_names@.len()
        &&& forall|i: int|
            0 <= i < d.channel_def[cid].consumers.len() ==> d.channel_def[cid].consumers[i]
                < ctx.process_names@.len()
    } by {
        assert(ctx.channel_defs@[cid as int]@.id < ctx.channel_defs@.len());
    }
}

/// Every string is at most as long as the longest.
proof fn lemma_max_len(s: Seq<&'static str>)
    ensures
        forall|i: int| 0 <= i < s.len() ==> str_len(#[trigger] s[i]) <= max_len(s),
        max_len(s) <= usize::MAX,
    decreases s.len(),
{
    if s.len() > 0 {
        lemma_max_len(s.drop_last());
        assert forall|i: int| 0 <= i < s.len() implies str_len(#[trigger] s[i]) <= max_len(s) by {
            if i < s.len() - 1 {
                assert(s[i] == s.drop_last()[i]);
            }
        }
    }
}

/// `n` spaces.
fn spaces_string(n: usize) -> (r: String)
    ensures
        r@ == spaces(n as nat),
{
    proof {
        reveal_strlit(" ");
    }
    let mut r = String::new();
    let mut i: usize = 0;
    while i < n
        invariant
            i <= n,
            r@ == spaces(i as nat),
            " "@ == seq![' '],
        decreases n - i,
    {
        r.append(" ");
        assert(r@ =~= spaces((i + 1) as nat));
        i = i + 1;
    }
    r
}

/// The greatest length in bytes of the given strings.
fn longest(v: &Vec<&'static str>) -> (r: usize)
    ensures
        r == max_len(v@),
{
    let mut m: usize = 0;
    let mut i: usize = 0;
    while i < v.len()
        invariant
            i <= v.len(),
            m == max_len(v@.subrange(0, i as int)),
        decreases v.len() - i,
    {
        let l = v[i].len();
        proof {
            assert(v@.subrange(0, i + 1).drop_last() =~= v@.subrange(0, i as int));
            assert(v@.subrange(0, i + 1).last() == v@[i as int]);
        }
        if m < l {
            m = l;
        }
        i = i + 1;
    }
    assert(v@.subrange(0, v@.len() as int) =~= v@);
    m
}

/// The line of one data field, as `field_line`.
fn field_line_string(
    name: &'static str,
    ty: &'static str,
    default: &'static str,
    longest_name: usize,
    longest_type: usize,
    hide_defaults: bool,
) -> (r: String)
    requires
        str_len(name) <= longest_name,
        str_len(ty) <= longest_type,
    ensures
        r@ == field_line(name, ty, default, longest_name as nat, longest_type as nat, hide_defaults),
{
    let mut raw = String::from_str(name);
    let name_pad = spaces_string(longest_name - name.len());
    raw.append(name_pad.as_str());
    raw.append(" : ");
    raw.append(ty);
    if !hide_defaults {
        let type_pad = spaces_string(longest_type - ty.len());
        raw.append(type_pad.as_str());
        raw.append(" = ");
        raw.append(default);
    }
    escape_html(raw.as_str())
}

/// The lines of all the data fields, as `field_lines`.
fn field_lines_string(
    names: &Vec<&'static str>,
    types: &Vec<&'static str>,
    defaults: &Vec<&'static str>,
    hide_defaults: bool,
) -> (r: String)
    requires
        names.len() == types.len(),
        types.len() == defaults.len(),
    ensures
        r@ == field_lines(names@, types@, defaults@, names@.len(), hide_defaults),
{
    let longest_name = longest(names);
    let longest_type = longest(types);
    proof {
        lemma_max_len(names@);
        lemma_max_len(types@);
    }
    let mut r = String::new();
    let mut i: usize = 0;
    while i < names.len()
        invariant
            names.len() == types.len(),
            types.len() == defaults.len(),
            i <= names.len(),
            longest_name == max_len(names@),
            longest_type == max_len(types@),
            forall|k: int| 0 <= k < names@.len() ==> str_len(#[trigger] names@[k]) <= max_len(names@),
            forall|k: int| 0 <= k < types@.len() ==> str_len(#[trigger] types@[k]) <= max_len(types@),
            r@ == field_lines(names@, types@, defaults@, i as nat, hide_defaults),
        decreases names.len() - i,
    {
        if i > 0 {
            r.append(",<BR ALIGN=\"LEFT\"/>");
        }
        let line = field_line_string(names[i], types[i], defaults[i], longest_name, longest_type, hide_defaults);
        r.append(line.as_str());
        proof {
            if i == 0 {
                assert(r@ =~= field_lines(names@, types@, defaults@, 1, hide_defaults));
            } else {
                assert(r@ =~= field_lines(names@, types@, defaults@, (i + 1) as nat, hide_defaults));
            }
        }
        i = i + 1;
    }
    r
}

/// The node of one process, as `process_node`.
fn process_node_string(ctx: &Context, pid: usize, pdef: &crate::process::Def, hide_defaults: bool) -> (r: String)
    requires
        pid < ctx.process_field_names@.len(),
        pid < ctx.process_field_types@.len(),
        pid < ctx.process_field_defaults@.len(),
        pid < ctx.process_result_types@.len(),
        pid < ctx.process_result_defaults@.len(),
        ctx.process_field_names@[pid as int]@.len() == ctx.process_field_types@[pid as int]@.len(),
        ctx.process_field_types@[pid as int]@.len() == ctx.process_field_defaults@[pid as int]@.len(),
        pdef@.id < ctx.process_names@.len(),
    ensures
        r@ == process_node(*ctx, pid, pdef@, hide_defaults),
{
    let name = ctx.process_names[*pdef.id()];
    let names = &ctx.process_field_names[pid];
    let types = &ctx.process_field_types[pid];
    let defaults = &ctx.process_field_defaults[pid];
    let ghost head = "    "@ + name@ + " [label=<<TABLE BORDER=\"0\"><TR><TD><B>"@ + name@ + "</B></TD></TR>"@;
    let mut s = String::from_str("    ");
    s.append(name);
    s.append(" [label=<<TABLE BORDER=\"0\"><TR><TD><B>");
    s.append(name);
    s.append("</B></TD></TR>");
    assert(s@ =~= head);
    let ghost fields: Seq<char> = Seq::empty();
    let mut mono_font = false;
    if names.len() != 0 {
        s.append("<TR><TD><FONT FACE=\"Mono\"><BR/>");
        mono_font = true;
        let lines = field_lines_string(names, types, defaults, hide_defaults);
        s.append(lines.as_str());
        proof {
            fields = "<TR><TD><FONT FACE=\"Mono\"><BR/>"@ + lines@;
        }
        assert(s@ =~= head + fields);
    }
    let result_type = ctx.process_result_types[pid];
    let ghost result: Seq<char> = Seq::empty();
    if !result_type.is_empty() {
        let ghost opening;
        if !mono_font {
            s.append("<TR><TD><FONT FACE=\"Mono\"><BR/>");
            mono_font = true;
            proof {
                opening = "<TR><TD><FONT FACE=\"Mono\"><BR/>"@;
            }
        } else {
            s.append("<BR ALIGN=\"LEFT\"/></FONT></TD></TR><TR><TD><FONT FACE=\"Mono\"><BR/>");
            proof {
                opening = "<BR ALIGN=\"LEFT\"/></FONT></TD></TR><TR><TD><FONT FACE=\"Mono\"><BR/>"@;
            }
        }
        let result_default = ctx.process_result_defaults[pid];
        let mut raw = String::from_str("-> ");
        raw.append(result_type);
        if !hide_defaults {
            raw.append(" = ");
            raw.append(result_default);
        }
        let escaped = escape_html(raw.as_str());
        s.append(escaped.as_str());
        proof {
            result = opening + escaped@;
        }
        assert(s@ =~= head + fields + result);
    }
    let ghost close: Seq<char> = Seq::empty();
    if mono_font {
        s.append("<BR ALIGN=\"LEFT\"/></FONT></TD></TR>");
        proof {
            close = "<BR ALIGN=\"LEFT\"/></FONT></TD></TR>"@;
        }
    }
    assert(s@ =~= head + fields + result + close);
    s.append("</TABLE>>]\n");
    assert(s@ =~= head + fields + result + close + "</TABLE>>]\n"@);
    s
}

/// Appends an edge.
fn push_edge(s: &mut String, from: &str, to: &str)
    ensures
        final(s)@ == old(s)@ + edge(from@, to@),
{
    s.append("    ");
    s.append(from);
    s.append(" -> ");
    s.append(to);
    s.append(" []\n");
    assert(final(s)@ =~= old(s)@ + edge(from@, to@));
}

/// The part of one channel, as `channel_part`.
fn channel_part_string(ctx: &Context, cid: usize, cdef: &channel::Def) -> (r: String)
    requires
        cid < ctx.channel_local_types@.len(),
        cdef@.id < ctx.channel_names@.len(),
        forall|i: int| 0 <= i < cdef@.producers.len() ==> cdef@.producers[i] < ctx.process_names@.len(),
        forall|i: int| 0 <= i < cdef@.consumers.len() ==> cdef@.consumers[i] < ctx.process_names@.len(),
    ensures
        r@ == channel_part(*ctx, cid, cdef@),
{
    let name = ctx.channel_names[*cdef.id()];
    let producers = cdef.producers();
    let consumers = cdef.consumers();
    let mut raw = String::from_str(name);
    raw.append(" <");
    raw.append(ctx.channel_local_types[cid]);
    raw.append(">");
    let label = escape_html(raw.as_str());
    let mut s = String::new();
    match cdef.kind() {
        channel::Kind::Simplex => {
            s.append("    ");
            s.append(ctx.process_names[producers[0]]);
            s.append(" -> ");
            s.append(ctx.process_names[consumers[0]]);
            s.append(" [label=<<FONT FACE=\"Sans Italic\">");
            s.append(label.as_str());
            s.append("</FONT>>]\n");
            assert(s@ =~= channel_part(*ctx, cid, cdef@));
        },
        channel::Kind::Source => {
            s.append("    ");
            s.append(name);
            s.append(" [label=<<B>+</B>>,\n      shape=diamond, style=\"\",\n      xlabel=<<FONT FACE=\"Sans Italic\">");
            s.append(label.as_str());
            s.append("</FONT>>]\n");
            assert(s@ =~= channel_node(name@, label@));
            push_edge(&mut s, ctx.process_names[producers[0]], name);
            let ghost prefix = s@;
            let mut i: usize = 0;
            while i < consumers.len()
                invariant
                    i <= consumers.len(),
                    consumers@ == cdef@.consumers,
                    forall|k: int| 0 <= k < consumers@.len() ==> consumers@[k] < ctx.process_names@.len(),
                    s@ == prefix + edges_from(*ctx, name@, consumers@.subrange(0, i as int)),
                decreases consumers.len() - i,
            {
                push_edge(&mut s, name, ctx.process_names[consumers[i]]);
                assert(consumers@.subrange(0, i + 1).drop_last() =~= consumers@.subrange(0, i as int));
                i = i + 1;
            }
            assert(consumers@.subrange(0, consumers@.len() as int) =~= consumers@);
            assert(s@ =~= channel_part(*ctx, cid, cdef@));
        },
        channel::Kind::Sink => {
            s.append("    ");
            s.append(name);
            s.append(" [label=<<B>+</B>>,\n      shape=diamond, style=\"\",\n      xlabel=<<FONT FACE=\"Sans Italic\">");
            s.append(label.as_str());
            s.append("</FONT>>]\n");
            assert(s@ =~= channel_node(name@, label@));
            push_edge(&mut s, name, ctx.process_names[consumers[0]]);
            let ghost prefix = s@;
            let mut i: usize = 0;
            while i < producers.len()
                invariant
                    i <= producers.len(),
                    producers@ == cdef@.producers,
                    forall|k: int| 0 <= k < producers@.len() ==> producers@[k] < ctx.process_names@.len(),
                    s@ == prefix + edges_to(*ctx, producers@.subrange(0, i as int), name@),
                decreases producers.len() - i,
            {
                push_edge(&mut s, ctx.process_names[producers[i]], name);
                assert(producers@.subrange(0, i + 1).drop_last() =~= producers@.subrange(0, i as int));
                i = i + 1;
            }
            assert(producers@.subrange(0, producers@.len() as int) =~= producers@);
            assert(s@ =~= channel_part(*ctx, cid, cdef@));
        },
    }
    s
}

impl Def {
    /// Generates a graphviz DOT file of the data-flow diagram of this session,
    /// with the labels of `ctx`, without the default expressions.
    pub fn dotfile(&self, ctx: &Context) -> (r: String)
        requires
            labels_cover(*ctx, self@),
        ensures
            r@ == session_dot(*ctx, self@, true),
    {
        self.session_dotfile(ctx, true)
    }

    /// Generates a graphviz DOT file of the data-flow diagram of this session,
    /// with the labels of `ctx`, showing the default expressions.
    pub fn dotfile_show_defaults(&self, ctx: &Context) -> (r: String)
        requires
            labels_cover(*ctx, self@),
        ensures
            r@ == session_dot(*ctx, self@, false),
    {
        self.session_dotfile(ctx, false)
    }

    /// The data-flow diagram, as `session_dot`.
    fn session_dotfile(&self, ctx: &Context, hide_defaults: bool) -> (r: String)
        requires
            labels_cover(*ctx, self@),
        ensures
            r@ == session_dot(*ctx, self@, hide_defaults),
    {
        let ghost d = self@;
        let name = self.name();
        // begin graph
        let mut s = String::from_str(
            "digraph {\n  overlap=scale\n  rankdir=LR\n  node [shape=hexagon, fontname=\"Sans Bold\"]\n  edge [style=dashed, arrowhead=vee, fontname=\"Sans\"]\n",
        );
        // begin subgraph
        s.append("  subgraph cluster_");
        s.append(name);
        s.append(" {\n");
        s.append("    label=<");
        s.append(name);
        s.append(">");
        s.append("\n    shape=record\n    style=rounded\n    fontname=\"Sans Bold Italic\"\n");
        assert(s@ =~= dot_header(d.name));
        // nodes (processes)
        let pids = process_def_map_keys(self.process_def());
        proof {
            lemma_sorted_keys(pids@, d.process_def.dom());
        }
        let ghost prefix = s@;
        let mut i: usize = 0;
        while i < pids.len()
            invariant
                i <= pids.len(),
                d == self@,
                labels_cover(*ctx, d),
                pids@ == sorted_keys(d.process_def.dom()),
                crate::vec_maps::ascending_keys(pids@, d.process_def.dom()),
                s@ == prefix + process_nodes(*ctx, d, pids@.subrange(0, i as int), hide_defaults),
            decreases pids.len() - i,
        {
            let pid = pids[i];
            assert(d.process_def.contains_key(pid)) by {
                assert(pids@.contains(pid));
            }
            let pdef = process_def_map_get(self.process_def(), pid).unwrap();
            let node = process_node_string(ctx, pid, pdef, hide_defaults);
            s.append(node.as_str());
            assert(pids@.subrange(0, i + 1).drop_last() =~= pids@.subrange(0, i as int));
            i = i + 1;
        }
        assert(pids@.subrange(0, pids@.len() as int) =~= pids@);
        // channels (edges)
        let cids = channel_def_map_keys(self.channel_def());
        proof {
            lemma_sorted_keys(cids@, d.channel_def.dom());
        }
        let ghost prefix = s@;
        let mut i: usize = 0;
        while i < cids.len()
            invariant
                i <= cids.len(),
                d == self@,
                labels_cover(*ctx, d),
                cids@ == sorted_keys(d.channel_def.dom()),
                crate::vec_maps::ascending_keys(cids@, d.channel_def.dom()),
                s@ == prefix + channel_parts(*ctx, d, cids@.subrange(0, i as int)),
            decreases cids.len() - i,
        {
            let cid = cids[i];
            assert(d.channel_def.contains_key(cid)) by {
                assert(cids@.contains(cid));
            }
            let cdef = channel_def_map_get(self.channel_def(), cid).unwrap();
            let part = channel_part_string(ctx, cid, cdef);
            s.append(part.as_str());
            assert(cids@.subrange(0, i + 1).drop_last() =~= cids@.subrange(0, i as int));
            i = i + 1;
        }
        assert(cids@.subrange(0, cids@.len() as int) =~= cids@);
        // end graph
        s.append("  }\n}");
        assert(s@ =~= session_dot(*ctx, d, hide_defaults));
        s
    }
}

} // verus!
