//! The layout of the data-flow diagram, stated piece by piece from the labels
//! of the context: how the lines of the data fields of a process are padded
//! and separated, how the rows of a process node are opened and closed, and
//! how each kind of channel is drawn.

use vstd::prelude::*;
use crate::channel;
use crate::escape::escape;
use crate::session::{Context, DefView};
use crate::session::dotfile::{
    str_len, max_len, field_line, field_lines, process_node, process_nodes, edges_from, edges_to,
    channel_part, channel_parts, session_dot,
};
use crate::vec_maps::sorted_keys;

verus! {

/// The strings `parts` joined by `sep`: `sep` between each two consecutive
/// parts, none before the first or after the last.
pub open spec fn join(parts: Seq<Seq<char>>, sep: Seq<char>) -> Seq<char>
    decreases parts.len(),
{
    if parts.len() == 0 {
        Seq::empty()
    } else if parts.len() == 1 {
        parts[0]
    } else {
        join(parts.drop_last(), sep) + sep + parts.last()
    }
}

/// `w` is the greatest length in bytes of the strings `s`.
pub open spec fn is_longest(s: Seq<&'static str>, w: nat) -> bool {
    &&& forall|j: int| 0 <= j < s.len() ==> str_len(#[trigger] s[j]) <= w
    &&& exists|j: int| 0 <= j < s.len() && str_len(#[trigger] s[j]) == w
}

/// The line of data field `i`, with its name padded by spaces to `wn` bytes
/// and, where defaults are shown, its type padded to `wt` bytes; escaped.
pub open spec fn padded_field(
    names: Seq<&'static str>,
    types: Seq<&'static str>,
    defaults: Seq<&'static str>,
    i: int,
    wn: nat,
    wt: nat,
    hide_defaults: bool,
) -> Seq<char> {
    let name_part = names[i]@ + Seq::new((wn - str_len(names[i])) as nat, |j: int| ' ') + " : "@ + types[i]@;
    if hide_defaults {
        escape(name_part)
    } else {
        escape(name_part + Seq::new((wt - str_len(types[i])) as nat, |j: int| ' ') + " = "@ + defaults[i]@)
    }
}

/// The left-aligned line break between the lines of the data fields.
pub open spec fn field_separator() -> Seq<char> {
    ",<BR ALIGN=\"LEFT\"/>"@
}

/// Joining one more part adds the separator and the part.
proof fn lemma_join_push(parts: Seq<Seq<char>>, x: Seq<char>, sep: Seq<char>)
    requires
        parts.len() >= 1,
    ensures
        join(parts.push(x), sep) == join(parts, sep) + sep + x,
{
    assert(parts.push(x).drop_last() =~= parts);
}

/// The longest length of non-empty strings is the length of one of them.
proof fn lemma_max_len_attained(s: Seq<&'static str>)
    requires
        s.len() >= 1,
    ensures
        exists|j: int| 0 <= j < s.len() && str_len(#[trigger] s[j]) == max_len(s),
        forall|j: int| 0 <= j < s.len() ==> str_len(#[trigger] s[j]) <= max_len(s),
    decreases s.len(),
{
    if s.len() == 1 {
        assert(s.drop_last().len() == 0);
        assert(max_len(s.drop_last()) == 0);
        assert(s.last() == s[0]);
        assert(str_len(s[0]) == max_len(s));
    } else {
        lemma_max_len_attained(s.drop_last());
        let m = max_len(s.drop_last());
        let j0 = choose|j: int| 0 <= j < s.drop_last().len() && str_len(#[trigger] s.drop_last()[j]) == m;
        assert(s[j0] == s.drop_last()[j0]);
        if m < str_len(s.last()) {
            assert(str_len(s[s.len() - 1]) == max_len(s));
        } else {
            assert(str_len(s[j0]) == max_len(s));
        }
        assert forall|j: int| 0 <= j < s.len() implies str_len(#[trigger] s[j]) <= max_len(s) by {
            if j < s.len() - 1 {
                assert(s[j] == s.drop_last()[j]);
            }
        }
    }
}

/// The greatest length is unique.
proof fn lemma_longest_is_max_len(s: Seq<&'static str>, w: nat)
    requires
        is_longest(s, w),
    ensures
        w == max_len(s),
{
    lemma_max_len_attained(s);
    let j = choose|j: int| 0 <= j < s.len() && str_len(#[trigger] s[j]) == w;
    let k = choose|k: int| 0 <= k < s.len() && str_len(#[trigger] s[k]) == max_len(s);
    assert(str_len(s[k]) <= w);
    assert(str_len(s[j]) <= max_len(s));
}

/// The first `k` field lines, padded to the widths of all the fields, joined.
proof fn lemma_field_lines_prefix(
    names: Seq<&'static str>,
    types: Seq<&'static str>,
    defaults: Seq<&'static str>,
    hide_defaults: bool,
    k: nat,
)
    requires
        1 <= k <= names.len(),
    ensures
        field_lines(names, types, defaults, k, hide_defaults) == join(
            Seq::new(
                k,
                |i: int| padded_field(names, types, defaults, i, max_len(names), max_len(types), hide_defaults),
            ),
            field_separator(),
        ),
    decreases k,
{
    let wn = max_len(names);
    let wt = max_len(types);
    let lines = Seq::new(k, |i: int| padded_field(names, types, defaults, i, wn, wt, hide_defaults));
    if k == 1 {
        assert(field_line(names[0], types[0], defaults[0], wn, wt, hide_defaults) == lines[0]);
    } else {
        lemma_field_lines_prefix(names, types, defaults, hide_defaults, (k - 1) as nat);
        let before = Seq::new((k - 1) as nat, |i: int| padded_field(names, types, defaults, i, wn, wt, hide_defaults));
        assert(lines =~= before.push(lines[k - 1]));
        lemma_join_push(before, lines[k - 1], field_separator());
        assert(field_line(names[k - 1], types[k - 1], defaults[k - 1], wn, wt, hide_defaults) == lines[k - 1]);
    }
}

/// The data fields of a process are drawn as one line each, in order, joined by
/// left-aligned line breaks; every name is padded to the longest name of all
/// the fields, and, where defaults are shown, every type to the longest type
/// of all the fields, so that the columns line up.
pub proof fn lemma_field_lines_layout(
    names: Seq<&'static str>,
    types: Seq<&'static str>,
    defaults: Seq<&'static str>,
    hide_defaults: bool,
    wn: nat,
    wt: nat,
)
    requires
        names.len() == types.len(),
        types.len() == defaults.len(),
        names.len() >= 1,
        is_longest(names, wn),
        is_longest(types, wt),
    ensures
        field_lines(names, types, defaults, names.len(), hide_defaults) == join(
            Seq::new(names.len(), |i: int| padded_field(names, types, defaults, i, wn, wt, hide_defaults)),
            field_separator(),
        ),
{
    lemma_longest_is_max_len(names, wn);
    lemma_longest_is_max_len(types, wt);
    lemma_field_lines_prefix(names, types, defaults, hide_defaults, names.len());
}

/// The opening of a row of monospace text in a process node.
pub open spec fn row_open() -> Seq<char> {
    "<TR><TD><FONT FACE=\"Mono\"><BR/>"@
}

/// The closing of a row of monospace text in a process node.
pub open spec fn row_close() -> Seq<char> {
    "<BR ALIGN=\"LEFT\"/></FONT></TD></TR>"@
}

/// The node of a process is its name in a table, then a row with the lines of
/// its data fields if it has any, then a row with its result type if it has
/// one; each row is opened before its text and closed after it, so a result
/// row opens a new row whether or not fields came before, and whether or not
/// defaults are shown. Showing defaults changes only the texts of the lines,
/// never the rows.
pub proof fn lemma_process_node_layout(
    ctx: Context,
    pid: usize,
    p: crate::process::DefView,
    hide_defaults: bool,
    wn: nat,
    wt: nat,
)
    requires
        ({
            let names = ctx.process_field_names@[pid as int]@;
            &&& names.len() == ctx.process_field_types@[pid as int]@.len()
            &&& names.len() == ctx.process_field_defaults@[pid as int]@.len()
            &&& names.len() > 0 ==> is_longest(names, wn) && is_longest(
                ctx.process_field_types@[pid as int]@,
                wt,
            )
        }),
    ensures
        ({
            let name = ctx.process_names@[p.id as int]@;
            let names = ctx.process_field_names@[pid as int]@;
            let types = ctx.process_field_types@[pid as int]@;
            let defaults = ctx.process_field_defaults@[pid as int]@;
            let result_type = ctx.process_result_types@[pid as int]@;
            let result_default = ctx.process_result_defaults@[pid as int]@;
            let head = "    "@ + name + " [label=<<TABLE BORDER=\"0\"><TR><TD><B>"@ + name + "</B></TD></TR>"@;
            let end = "</TABLE>>]\n"@;
            let fields = join(
                Seq::new(names.len(), |i: int| padded_field(names, types, defaults, i, wn, wt, hide_defaults)),
                field_separator(),
            );
            let result = if hide_defaults {
                escape("-> "@ + result_type)
            } else {
                escape("-> "@ + result_type + " = "@ + result_default)
            };
            let node = process_node(ctx, pid, p, hide_defaults);
            &&& names.len() == 0 && result_type.len() == 0 ==> node == head + end
            &&& names.len() == 0 && result_type.len() > 0 ==> node == head + row_open() + result + row_close() + end
            &&& names.len() > 0 && result_type.len() == 0 ==> node == head + row_open() + fields + row_close() + end
            &&& names.len() > 0 && result_type.len() > 0 ==> node == head + row_open() + fields + row_close()
                + row_open() + result + row_close() + end
        }),
{
    let names = ctx.process_field_names@[pid as int]@;
    let types = ctx.process_field_types@[pid as int]@;
    let defaults = ctx.process_field_defaults@[pid as int]@;
    reveal_strlit("<TR><TD><FONT FACE=\"Mono\"><BR/>");
    reveal_strlit("<BR ALIGN=\"LEFT\"/></FONT></TD></TR>");
    reveal_strlit("<BR ALIGN=\"LEFT\"/></FONT></TD></TR><TR><TD><FONT FACE=\"Mono\"><BR/>");
    assert("<BR ALIGN=\"LEFT\"/></FONT></TD></TR><TR><TD><FONT FACE=\"Mono\"><BR/>"@ =~= row_close() + row_open());
    if names.len() > 0 {
        lemma_field_lines_layout(names, types, defaults, hide_defaults, wn, wt);
    }
}

/// An edge from `from` to `to`.
pub open spec fn arrow(from: Seq<char>, to: Seq<char>) -> Seq<char> {
    "    "@ + from + " -> "@ + to + " []\n"@
}

/// The edges from `from` to each process of `pids`, in order, are one edge for
/// each.
proof fn lemma_edges_from_each(ctx: Context, from: Seq<char>, pids: Seq<usize>)
    ensures
        edges_from(ctx, from, pids) == join(
            Seq::new(pids.len(), |i: int| arrow(from, ctx.process_names@[pids[i] as int]@)),
            Seq::empty(),
        ),
    decreases pids.len(),
{
    let all = Seq::new(pids.len(), |i: int| arrow(from, ctx.process_names@[pids[i] as int]@));
    if pids.len() == 1 {
        assert(edges_from(ctx, from, pids.drop_last()) == Seq::<char>::empty());
        assert(edges_from(ctx, from, pids) =~= all[0]);
    } else if pids.len() > 1 {
        lemma_edges_from_each(ctx, from, pids.drop_last());
        let before = Seq::new(
            pids.drop_last().len(),
            |i: int| arrow(from, ctx.process_names@[pids.drop_last()[i] as int]@),
        );
        assert(all =~= before.push(all[pids.len() - 1]));
        lemma_join_push(before, all[pids.len() - 1], Seq::empty());
        assert(edges_from(ctx, from, pids) =~= join(all, Seq::empty()));
    }
}

/// The edges from each process of `pids`, in order, to `to` are one edge for
/// each.
proof fn lemma_edges_to_each(ctx: Context, pids: Seq<usize>, to: Seq<char>)
    ensures
        edges_to(ctx, pids, to) == join(
            Seq::new(pids.len(), |i: int| arrow(ctx.process_names@[pids[i] as int]@, to)),
            Seq::empty(),
        ),
    decreases pids.len(),
{
    let all = Seq::new(pids.len(), |i: int| arrow(ctx.process_names@[pids[i] as int]@, to));
    if pids.len() == 1 {
        assert(edges_to(ctx, pids.drop_last(), to) == Seq::<char>::empty());
        assert(edges_to(ctx, pids, to) =~= all[0]);
    } else if pids.len() > 1 {
        lemma_edges_to_each(ctx, pids.drop_last(), to);
        let before = Seq::new(
            pids.drop_last().len(),
            |i: int| arrow(ctx.process_names@[pids.drop_last()[i] as int]@, to),
        );
        assert(all =~= before.push(all[pids.len() - 1]));
        lemma_join_push(before, all[pids.len() - 1], Seq::empty());
        assert(edges_to(ctx, pids, to) =~= join(all, Seq::empty()));
    }
}

/// A simplex channel is drawn as one labelled edge from its producer to its
/// consumer. A source channel, whatever its number of consumers, is drawn as a
/// diamond node named after the channel, an edge from its producer to the
/// node and an edge from the node to each consumer, in order. A sink channel,
/// whatever its number of producers, is drawn as a diamond node, an edge from
/// the node to its consumer and an edge from each producer to the node.
pub proof fn lemma_channel_part_layout(ctx: Context, cid: usize, c: channel::DefView)
    ensures
        ({
            let label_of = |pid: usize| ctx.process_names@[pid as int]@;
            let name = ctx.channel_names@[c.id as int]@;
            let label = escape(name + " <"@ + ctx.channel_local_types@[cid as int]@ + ">"@);
            let node = "    "@ + name
                + " [label=<<B>+</B>>,\n      shape=diamond, style=\"\",\n      xlabel=<<FONT FACE=\"Sans Italic\">"@
                + label + "</FONT>>]\n"@;
            let part = channel_part(ctx, cid, c);
            &&& c.kind == channel::Kind::Simplex ==> part == "    "@ + label_of(c.producers[0]) + " -> "@ + label_of(
                c.consumers[0],
            ) + " [label=<<FONT FACE=\"Sans Italic\">"@ + label + "</FONT>>]\n"@
            &&& c.kind == channel::Kind::Source ==> part == node + arrow(label_of(c.producers[0]), name) + join(
                Seq::new(c.consumers.len(), |i: int| arrow(name, label_of(c.consumers[i]))),
                Seq::empty(),
            )
            &&& c.kind == channel::Kind::Sink ==> part == node + arrow(name, label_of(c.consumers[0])) + join(
                Seq::new(c.producers.len(), |i: int| arrow(label_of(c.producers[i]), name)),
                Seq::empty(),
            )
        }),
{
    let name = ctx.channel_names@[c.id as int]@;
    lemma_edges_from_each(ctx, name, c.consumers);
    lemma_edges_to_each(ctx, c.producers, name);
    let label_of = |pid: usize| ctx.process_names@[pid as int]@;
    assert(Seq::new(c.consumers.len(), |i: int| arrow(name, label_of(c.consumers[i]))) =~= Seq::new(
        c.consumers.len(),
        |i: int| arrow(name, ctx.process_names@[c.consumers[i] as int]@),
    ));
    assert(Seq::new(c.producers.len(), |i: int| arrow(label_of(c.producers[i]), name)) =~= Seq::new(
        c.producers.len(),
        |i: int| arrow(ctx.process_names@[c.producers[i] as int]@, name),
    ));
}

/// The nodes of the processes `pids` are the node of each, in order.
proof fn lemma_process_nodes_each(ctx: Context, d: DefView, pids: Seq<usize>, hide_defaults: bool)
    ensures
        process_nodes(ctx, d, pids, hide_defaults) == join(
            Seq::new(pids.len(), |i: int| process_node(ctx, pids[i], d.process_def[pids[i]], hide_defaults)),
            Seq::empty(),
        ),
    decreases pids.len(),
{
    let all = Seq::new(pids.len(), |i: int| process_node(ctx, pids[i], d.process_def[pids[i]], hide_defaults));
    if pids.len() == 1 {
        assert(process_nodes(ctx, d, pids.drop_last(), hide_defaults) == Seq::<char>::empty());
        assert(process_nodes(ctx, d, pids, hide_defaults) =~= all[0]);
    } else if pids.len() > 1 {
        lemma_process_nodes_each(ctx, d, pids.drop_last(), hide_defaults);
        let before = Seq::new(
            pids.drop_last().len(),
            |i: int| process_node(ctx, pids.drop_last()[i], d.process_def[pids.drop_last()[i]], hide_defaults),
        );
        assert(all =~= before.push(all[pids.len() - 1]));
        lemma_join_push(before, all[pids.len() - 1], Seq::empty());
        assert(process_nodes(ctx, d, pids, hide_defaults) =~= join(all, Seq::empty()));
    }
}

/// The parts of the channels `cids` are the part of each, in order.
proof fn lemma_channel_parts_each(ctx: Context, d: DefView, cids: Seq<usize>)
    ensures
        channel_parts(ctx, d, cids) == join(
            Seq::new(cids.len(), |i: int| channel_part(ctx, cids[i], d.channel_def[cids[i]])),
            Seq::empty(),
        ),
    decreases cids.len(),
{
    let all = Seq::new(cids.len(), |i: int| channel_part(ctx, cids[i], d.channel_def[cids[i]]));
    if cids.len() == 1 {
        assert(channel_parts(ctx, d, cids.drop_last()) == Seq::<char>::empty());
        assert(channel_parts(ctx, d, cids) =~= all[0]);
    } else if cids.len() > 1 {
        lemma_channel_parts_each(ctx, d, cids.drop_last());
        let before = Seq::new(
            cids.drop_last().len(),
            |i: int| channel_part(ctx, cids.drop_last()[i], d.channel_def[cids.drop_last()[i]]),
        );
        assert(all =~= before.push(all[cids.len() - 1]));
        lemma_join_push(before, all[cids.len() - 1], Seq::empty());
        assert(channel_parts(ctx, d, cids) =~= join(all, Seq::empty()));
    }
}

/// The diagram of a session is the graph and subgraph openings with the
/// session's name, the node of every process in ascending order of process
/// identifier, the part of every channel in ascending order of channel
/// identifier, and the closings of the subgraph and the graph.
pub proof fn lemma_session_dot_layout(ctx: Context, d: DefView, hide_defaults: bool)
    ensures
        ({
            let pids = sorted_keys(d.process_def.dom());
            let cids = sorted_keys(d.channel_def.dom());
            session_dot(ctx, d, hide_defaults) == "digraph {\n  overlap=scale\n  rankdir=LR\n  node [shape=hexagon, fontname=\"Sans Bold\"]\n  edge [style=dashed, arrowhead=vee, fontname=\"Sans\"]\n"@
                + "  subgraph cluster_"@ + d.name + " {\n"@ + "    label=<"@ + d.name + ">"@
                + "\n    shape=record\n    style=rounded\n    fontname=\"Sans Bold Italic\"\n"@ + join(
                Seq::new(pids.len(), |i: int| process_node(ctx, pids[i], d.process_def[pids[i]], hide_defaults)),
                Seq::empty(),
            ) + join(
                Seq::new(cids.len(), |i: int| channel_part(ctx, cids[i], d.channel_def[cids[i]])),
                Seq::empty(),
            ) + "  }\n}"@
        }),
{
    lemma_process_nodes_each(ctx, d, sorted_keys(d.process_def.dom()), hide_defaults);
    lemma_channel_parts_each(ctx, d, sorted_keys(d.channel_def.dom()));
}

} // verus!
