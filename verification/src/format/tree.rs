//! The tree format: call trees from `graph callers`/`callees` rows (their
//! `depth` as indentation) or from a `graph calls` envelope (nodes and
//! edges, walked from the roots with a guard against cycles).
use vstd::prelude::*;
use vstd::string::*;
use crate::format::rows::str_of;
use crate::format::values::{concat, lemma_concat_push};
use crate::json::{indent, member, push_str, spec_as_u64, JsonValue};
use crate::query::strs;
use crate::text::{chars_of, string_push};
use crate::format::tabular::has_key;
use crate::error::GhidraError;
use super::tree_needs_graph_message;

verus! {

broadcast use vstd::string::group_string_axioms;

/// Lexicographic order of texts by code point (the order of their UTF-8
/// bytes, which is how `String`s compare).
pub open spec fn text_lt(a: Seq<char>, b: Seq<char>) -> bool
    decreases a.len(),
{
    if a.len() == 0 {
        b.len() > 0
    } else if b.len() == 0 {
        false
    } else if a[0] != b[0] {
        (a[0] as u32) < (b[0] as u32)
    } else {
        text_lt(a.drop_first(), b.drop_first())
    }
}

/// `q` with `x` placed before its first element greater than `x`.
pub open spec fn insert_sorted(q: Seq<Seq<char>>, x: Seq<char>) -> Seq<Seq<char>>
    decreases q.len(),
{
    if q.len() == 0 {
        seq![x]
    } else if text_lt(x, q[0]) {
        seq![x] + q
    } else {
        seq![q[0]] + insert_sorted(q.drop_first(), x)
    }
}

/// The texts in ascending order (duplicates kept).
pub open spec fn sort_texts(s: Seq<Seq<char>>) -> Seq<Seq<char>>
    decreases s.len(),
{
    if s.len() == 0 {
        seq![]
    } else {
        insert_sorted(sort_texts(s.drop_last()), s.last())
    }
}

/// `q` with `x` added in order unless it holds `x` already.
pub open spec fn insert_unique(q: Seq<Seq<char>>, x: Seq<char>) -> Seq<Seq<char>> {
    if q.contains(x) {
        q
    } else {
        insert_sorted(q, x)
    }
}

/// `(id, name)` of a node with both as strings.
pub open spec fn node_pair(n: JsonValue) -> Option<(Seq<char>, Seq<char>)> {
    match (str_of(member(n, "id"@)), str_of(member(n, "name"@))) {
        (Some(i), Some(nm)) => Some((i, nm)),
        _ => None,
    }
}

/// `(from, to)` of an edge with both as strings.
pub open spec fn edge_pair(e: JsonValue) -> Option<(Seq<char>, Seq<char>)> {
    match (str_of(member(e, "from"@)), str_of(member(e, "to"@))) {
        (Some(f), Some(t)) => Some((f, t)),
        _ => None,
    }
}

/// The name of node `id`: that of the last node listed with this id.
pub open spec fn node_name(nodes: Seq<JsonValue>, id: Seq<char>) -> Option<Seq<char>>
    decreases nodes.len(),
{
    if nodes.len() == 0 {
        None
    } else {
        match node_pair(nodes.last()) {
            Some(p) => if p.0 == id {
                Some(p.1)
            } else {
                node_name(nodes.drop_last(), id)
            },
            None => node_name(nodes.drop_last(), id),
        }
    }
}

/// The distinct node ids in ascending order.
pub open spec fn node_ids(nodes: Seq<JsonValue>) -> Seq<Seq<char>>
    decreases nodes.len(),
{
    if nodes.len() == 0 {
        seq![]
    } else {
        let r = node_ids(nodes.drop_last());
        match node_pair(nodes.last()) {
            Some(p) => insert_unique(r, p.0),
            None => r,
        }
    }
}

/// The targets of the edges leaving `from`, in edge order.
pub open spec fn targets(edges: Seq<JsonValue>, from: Seq<char>) -> Seq<Seq<char>>
    decreases edges.len(),
{
    if edges.len() == 0 {
        seq![]
    } else {
        let r = targets(edges.drop_last(), from);
        match edge_pair(edges.last()) {
            Some(p) => if p.0 == from {
                r.push(p.1)
            } else {
                r
            },
            None => r,
        }
    }
}

/// The callees of `from`, in ascending order.
pub open spec fn kids(edges: Seq<JsonValue>, from: Seq<char>) -> Seq<Seq<char>> {
    sort_texts(targets(edges, from))
}

/// Whether some edge leads to `id`.
pub open spec fn parented(edges: Seq<JsonValue>, id: Seq<char>) -> bool
    decreases edges.len(),
{
    if edges.len() == 0 {
        false
    } else {
        (match edge_pair(edges.last()) {
            Some(p) => p.1 == id,
            None => false,
        }) || parented(edges.drop_last(), id)
    }
}

/// The ids that no edge leads to, in the given order.
pub open spec fn unparented(ids: Seq<Seq<char>>, edges: Seq<JsonValue>) -> Seq<Seq<char>>
    decreases ids.len(),
{
    if ids.len() == 0 {
        seq![]
    } else {
        let r = unparented(ids.drop_last(), edges);
        if parented(edges, ids.last()) {
            r
        } else {
            r.push(ids.last())
        }
    }
}

/// Where the walk starts: the nodes without an incoming edge, or every
/// node when each has one (a pure cycle).
pub open spec fn roots(nodes: Seq<JsonValue>, edges: Seq<JsonValue>) -> Seq<Seq<char>> {
    if unparented(node_ids(nodes), edges).len() == 0 {
        node_ids(nodes)
    } else {
        unparented(node_ids(nodes), edges)
    }
}

/// The subtree under node `id`: its line at `depth`, marked `(…)` and not
/// descended into when it is already on the path; nothing at depth 128.
pub open spec fn tree_text(
    nodes: Seq<JsonValue>,
    edges: Seq<JsonValue>,
    id: Seq<char>,
    name: Seq<char>,
    path: Seq<Seq<char>>,
    depth: int,
) -> Seq<char>
    decreases 128 - depth, 0nat, 0nat,
{
    if depth >= 128 || depth < 0 {
        seq![]
    } else if path.contains(id) {
        indent(depth as nat) + name + " (…)"@ + seq!['\n']
    } else {
        indent(depth as nat) + name + seq!['\n'] + kids_text(
            nodes,
            edges,
            kids(edges, id),
            path.push(id),
            depth + 1,
        )
    }
}

/// The subtrees of the named nodes among `ks`, one after the other.
pub open spec fn kids_text(
    nodes: Seq<JsonValue>,
    edges: Seq<JsonValue>,
    ks: Seq<Seq<char>>,
    path: Seq<Seq<char>>,
    depth: int,
) -> Seq<char>
    decreases 128 - depth, 1nat, ks.len(),
{
    if ks.len() == 0 {
        seq![]
    } else {
        kids_text(nodes, edges, ks.drop_last(), path, depth) + match node_name(nodes, ks.last()) {
            Some(nm) => tree_text(nodes, edges, ks.last(), nm, path, depth),
            None => seq![],
        }
    }
}

/// The rendering of a `graph calls` envelope.
pub open spec fn graph_text(nodes: Seq<JsonValue>, edges: Seq<JsonValue>) -> Seq<char> {
    kids_text(nodes, edges, roots(nodes, edges), seq![], 0)
}

// ---------------------------------------------------------------------------

/// `a < b` for strings.
pub fn text_less(a: &str, b: &str) -> (r: bool)
    ensures
        r == text_lt(a@, b@),
{
    let x = chars_of(a);
    let y = chars_of(b);
    let mut i: usize = 0;
    assert(x@.skip(0) =~= x@);
    assert(y@.skip(0) =~= y@);
    while i < x.len() && i < y.len()
        invariant
            x@ == a@,
            y@ == b@,
            0 <= i <= x.len(),
            i <= y.len(),
            text_lt(a@, b@) == text_lt(x@.skip(i as int), y@.skip(i as int)),
        decreases x.len() - i,
    {
        assert(x@.skip(i as int)[0] == x@[i as int]);
        assert(y@.skip(i as int)[0] == y@[i as int]);
        if x[i] != y[i] {
            return (x[i] as u32) < (y[i] as u32);
        }
        assert(x@.skip(i as int).drop_first() =~= x@.skip(i + 1));
        assert(y@.skip(i as int).drop_first() =~= y@.skip(i + 1));
        i = i + 1;
    }
    i == x.len() && i < y.len()
}

pub proof fn lemma_insert_sorted_at(q: Seq<Seq<char>>, x: Seq<char>, j: int)
    requires
        0 <= j <= q.len(),
        forall|k: int| 0 <= k < j ==> !text_lt(x, #[trigger] q[k]),
        j == q.len() || text_lt(x, q[j]),
    ensures
        insert_sorted(q, x) == q.take(j).push(x) + q.skip(j),
    decreases j,
{
    if q.len() == 0 {
        assert(q.take(j).push(x) + q.skip(j) =~= seq![x]);
    } else if j == 0 {
        assert(q.take(j).push(x) + q.skip(j) =~= seq![x] + q);
    } else {
        let r = q.drop_first();
        assert forall|k: int| 0 <= k < j - 1 implies !text_lt(x, #[trigger] r[k]) by {
            assert(r[k] == q[k + 1]);
        }
        if j < q.len() {
            assert(r[j - 1] == q[j]);
        }
        lemma_insert_sorted_at(r, x, j - 1);
        assert(q.take(j).push(x) + q.skip(j) =~= seq![q[0]] + (r.take(j - 1).push(x) + r.skip(
            j - 1,
        )));
    }
}

/// Puts `x` into the ascending list `q` (see [`insert_sorted`]).
pub fn insert_text(q: &mut Vec<String>, x: String)
    ensures
        strs(final(q)@) == insert_sorted(strs(old(q)@), x@),
{
    let mut j: usize = 0;
    while j < q.len()
        invariant
            0 <= j <= q.len(),
            q@ == old(q)@,
            forall|k: int| 0 <= k < j ==> !text_lt(x@, #[trigger] strs(q@)[k]),
        ensures
            j == q.len() || text_lt(x@, strs(q@)[j as int]),
        decreases q.len() - j,
    {
        if text_less(x.as_str(), q[j].as_str()) {
            break;
        }
        j = j + 1;
    }
    proof {
        lemma_insert_sorted_at(strs(q@), x@, j as int);
    }
    let ghost pre = q@;
    q.insert(j, x);
    assert(strs(q@) =~= strs(pre).take(j as int).push(x@) + strs(pre).skip(j as int));
}

/// The name of node `id` (see [`node_name`]).
pub fn lookup_name(nodes: &[JsonValue], id: &str) -> (r: Option<String>)
    ensures
        crate::query::planner::opt_view(r) == node_name(nodes@, id@),
{
    let mut i: usize = nodes.len();
    assert(nodes@.take(i as int) =~= nodes@);
    while i > 0
        invariant
            0 <= i <= nodes.len(),
            node_name(nodes@, id@) == node_name(nodes@.take(i as int), id@),
        decreases i,
    {
        let ghost k = i as int;
        i = i - 1;
        assert(nodes@.take(k).drop_last() =~= nodes@.take(i as int));
        assert(nodes@.take(k).last() == nodes@[i as int]);
        if let (Some(JsonValue::String(nid)), Some(JsonValue::String(nm))) = (
            nodes[i].get("id"),
            nodes[i].get("name"),
        ) {
            if crate::json::str_eq(nid.as_str(), id) {
                return Some(nm.as_str().to_owned());
            }
        }
    }
    assert(nodes@.take(0) =~= Seq::<JsonValue>::empty());
    None
}

/// The distinct node ids in ascending order (see [`node_ids`]).
pub fn collect_ids(nodes: &[JsonValue]) -> (r: Vec<String>)
    ensures
        strs(r@) == node_ids(nodes@),
{
    let mut ids: Vec<String> = Vec::new();
    let mut i: usize = 0;
    assert(strs(ids@) =~= seq![]);
    while i < nodes.len()
        invariant
            0 <= i <= nodes.len(),
            strs(ids@) == node_ids(nodes@.take(i as int)),
        decreases nodes.len() - i,
    {
        assert(nodes@.take(i + 1).drop_last() =~= nodes@.take(i as int));
        assert(nodes@.take(i + 1).last() == nodes@[i as int]);
        if let (Some(JsonValue::String(nid)), Some(JsonValue::String(_))) = (
            nodes[i].get("id"),
            nodes[i].get("name"),
        ) {
            if !has_key(&ids, nid.as_str()) {
                insert_text(&mut ids, nid.as_str().to_owned());
            }
        }
        i = i + 1;
    }
    assert(nodes@.take(nodes.len() as int) =~= nodes@);
    ids
}

/// The callees of `from`, in ascending order (see [`kids`]).
pub fn children_of(edges: &[JsonValue], from: &str) -> (r: Vec<String>)
    ensures
        strs(r@) == kids(edges@, from@),
{
    let mut ts: Vec<String> = Vec::new();
    let mut sorted: Vec<String> = Vec::new();
    let mut i: usize = 0;
    assert(strs(sorted@) =~= seq![]);
    while i < edges.len()
        invariant
            0 <= i <= edges.len(),
            strs(sorted@) == sort_texts(targets(edges@.take(i as int), from@)),
        decreases edges.len() - i,
    {
        assert(edges@.take(i + 1).drop_last() =~= edges@.take(i as int));
        assert(edges@.take(i + 1).last() == edges@[i as int]);
        if let (Some(JsonValue::String(f)), Some(JsonValue::String(t))) = (
            edges[i].get("from"),
            edges[i].get("to"),
        ) {
            if crate::json::str_eq(f.as_str(), from) {
                let ghost before = targets(edges@.take(i as int), from@);
                assert(before.push(t@).drop_last() =~= before);
                insert_text(&mut sorted, t.as_str().to_owned());
            }
        }
        i = i + 1;
    }
    assert(edges@.take(edges.len() as int) =~= edges@);
    sorted
}

/// Whether some edge leads to `id`.
pub fn has_parent(edges: &[JsonValue], id: &str) -> (r: bool)
    ensures
        r == parented(edges@, id@),
{
    let mut found = false;
    let mut i: usize = 0;
    while i < edges.len()
        invariant
            0 <= i <= edges.len(),
            found == parented(edges@.take(i as int), id@),
        decreases edges.len() - i,
    {
        assert(edges@.take(i + 1).drop_last() =~= edges@.take(i as int));
        assert(edges@.take(i + 1).last() == edges@[i as int]);
        if let (Some(JsonValue::String(_)), Some(JsonValue::String(t))) = (
            edges[i].get("from"),
            edges[i].get("to"),
        ) {
            if crate::json::str_eq(t.as_str(), id) {
                found = true;
            }
        }
        i = i + 1;
    }
    assert(edges@.take(edges.len() as int) =~= edges@);
    found
}

/// Where the walk over a `graph calls` envelope starts (see [`roots`]).
pub fn root_ids(nodes: &[JsonValue], edges: &[JsonValue]) -> (r: Vec<String>)
    ensures
        strs(r@) == roots(nodes@, edges@),
{
    let ids = collect_ids(nodes);
    let mut r: Vec<String> = Vec::new();
    let mut i: usize = 0;
    assert(strs(r@) =~= seq![]);
    while i < ids.len()
        invariant
            0 <= i <= ids.len(),
            strs(r@) == unparented(strs(ids@).take(i as int), edges@),
        decreases ids.len() - i,
    {
        assert(strs(ids@).take(i + 1).drop_last() =~= strs(ids@).take(i as int));
        assert(strs(ids@).take(i + 1).last() == ids@[i as int]@);
        if !has_parent(edges, ids[i].as_str()) {
            let ghost pre = r@;
            r.push(ids[i].as_str().to_owned());
            assert(strs(r@) =~= strs(pre).push(ids@[i as int]@));
        }
        i = i + 1;
    }
    assert(strs(ids@).take(ids.len() as int) =~= strs(ids@));
    if r.len() == 0 {
        ids
    } else {
        r
    }
}

fn push_indent(out: &mut String, depth: usize)
    ensures
        final(out)@ == old(out)@ + indent(depth as nat),
{
    let mut i: usize = 0;
    while i < depth
        invariant
            0 <= i <= depth,
            out@ == old(out)@ + indent(i as nat),
        decreases depth - i,
    {
        string_push(out, ' ');
        string_push(out, ' ');
        i = i + 1;
        assert(out@ =~= old(out)@ + indent(i as nat));
    }
}

/// Renders the subtree under node `id` (see [`tree_text`]); the path of
/// nodes above it is `on_path`, and is as before when done.
pub fn render_call_node(
    id: &str,
    name: &str,
    nodes: &[JsonValue],
    edges: &[JsonValue],
    on_path: &mut Vec<String>,
    out: &mut String,
    depth: usize,
)
    ensures
        final(out)@ == old(out)@ + tree_text(
            nodes@,
            edges@,
            id@,
            name@,
            strs(old(on_path)@),
            depth as int,
        ),
        final(on_path)@ == old(on_path)@,
    decreases 128 - depth, 0nat, 0nat,
{
    if depth >= 128 {
        return ;
    }
    let cyclic = has_key(on_path, id);
    push_indent(out, depth);
    push_str(out, name);
    if cyclic {
        push_str(out, " (…)");
    }
    string_push(out, '\n');
    if cyclic {
        assert(final(out)@ =~= old(out)@ + tree_text(
            nodes@,
            edges@,
            id@,
            name@,
            strs(old(on_path)@),
            depth as int,
        ));
        return ;
    }
    let ghost head = out@;
    on_path.push(id.to_owned());
    assert(strs(on_path@) =~= strs(old(on_path)@).push(id@));
    let ks = children_of(edges, id);
    render_kids(&ks, nodes, edges, on_path, out, depth + 1);
    let _ = on_path.pop();
    assert(on_path@ =~= old(on_path)@);
    assert(final(out)@ =~= old(out)@ + tree_text(
        nodes@,
        edges@,
        id@,
        name@,
        strs(old(on_path)@),
        depth as int,
    ));
}

/// Renders the subtrees of the named nodes among `ks` (see [`kids_text`]).
fn render_kids(
    ks: &Vec<String>,
    nodes: &[JsonValue],
    edges: &[JsonValue],
    on_path: &mut Vec<String>,
    out: &mut String,
    depth: usize,
)
    requires
        depth <= 128,
    ensures
        final(out)@ == old(out)@ + kids_text(
            nodes@,
            edges@,
            strs(ks@),
            strs(old(on_path)@),
            depth as int,
        ),
        final(on_path)@ == old(on_path)@,
    decreases 128 - depth, 1nat, ks.len(),
{
    let ghost path = strs(on_path@);
    let mut i: usize = 0;
    while i < ks.len()
        invariant
            0 <= i <= ks.len(),
            depth <= 128,
            on_path@ == old(on_path)@,
            path == strs(old(on_path)@),
            out@ == old(out)@ + kids_text(nodes@, edges@, strs(ks@).take(i as int), path, depth as int),
        decreases ks.len() - i,
    {
        assert(strs(ks@).take(i + 1).drop_last() =~= strs(ks@).take(i as int));
        assert(strs(ks@).take(i + 1).last() == ks@[i as int]@);
        let nm = lookup_name(nodes, ks[i].as_str());
        if let Some(nm) = nm {
            render_call_node(ks[i].as_str(), nm.as_str(), nodes, edges, on_path, out, depth);
        }
        i = i + 1;
    }
    assert(strs(ks@).take(ks.len() as int) =~= strs(ks@));
}

/// Renders a `graph calls` envelope (see [`graph_text`]).
pub fn render_call_graph(nodes: &[JsonValue], edges: &[JsonValue]) -> (r: String)
    ensures
        r@ == graph_text(nodes@, edges@),
{
    let rs = root_ids(nodes, edges);
    let mut on_path: Vec<String> = Vec::new();
    let mut out = String::new();
    assert(strs(on_path@) =~= seq![]);
    render_kids(&rs, nodes, edges, &mut on_path, &mut out, 0);
    assert(out@ =~= graph_text(nodes@, edges@));
    out
}

// ---------------------------------------------------------------------------
// The tree format
// ---------------------------------------------------------------------------

/// The `depth` of a callers/callees row (0 when missing or not a u64).
pub open spec fn depth_of(v: JsonValue) -> nat {
    match member(v, "depth"@) {
        Some(d) => match spec_as_u64(d) {
            Some(n) => (n as usize) as nat,
            None => 0,
        },
        None => 0,
    }
}

/// The name of a callers/callees row (`?` when missing).
pub open spec fn row_name(v: JsonValue) -> Seq<char> {
    match str_of(member(v, "name"@)) {
        Some(n) => n,
        None => "?"@,
    }
}

/// The rest of a callers/callees line after the name.
pub open spec fn row_tail(v: JsonValue) -> Seq<char> {
    let addr = match str_of(member(v, "address"@)) {
        Some(a) => a,
        None => "?"@,
    };
    match str_of(member(v, "call_site"@)) {
        Some(site) => " @ "@ + site + " ("@ + addr + ")\n"@,
        None => " ("@ + addr + ")\n"@,
    }
}

/// One callers/callees line: indentation, name, the call site when given,
/// the address in brackets.
pub open spec fn depth_line(v: JsonValue) -> Seq<char> {
    indent(depth_of(v)) + row_name(v) + row_tail(v)
}

/// The graph envelope's `nodes` and `edges`, when both are arrays.
pub open spec fn envelope_parts(v: JsonValue) -> Option<(Seq<JsonValue>, Seq<JsonValue>)> {
    match (member(v, "nodes"@), member(v, "edges"@)) {
        (Some(JsonValue::Array(n)), Some(JsonValue::Array(e))) => Some((n@, e@)),
        _ => None,
    }
}

/// The tree format: `No results` for no rows; a `graph calls` envelope
/// first; rows with a `depth` as an indented list; anything else is not
/// graph data (`None`).
pub open spec fn tree_out(data: Seq<JsonValue>) -> Option<Seq<char>> {
    if data.len() == 0 {
        Some("No results"@)
    } else if let Some(parts) = envelope_parts(data[0]) {
        Some(graph_text(parts.0, parts.1))
    } else if exists|i: int| 0 <= i < data.len() && (#[trigger] member(data[i], "depth"@)) is Some {
        Some(concat(data.map_values(|v: JsonValue| depth_line(v))))
    } else {
        None
    }
}

fn write_row_tail(v: &JsonValue, out: &mut String)
    ensures
        final(out)@ == old(out)@ + row_tail(*v),
{
    let addr: &str = match v.get("address") {
        Some(JsonValue::String(a)) => a.as_str(),
        _ => "?",
    };
    match v.get("call_site") {
        Some(JsonValue::String(site)) => {
            push_str(out, " @ ");
            push_str(out, site.as_str());
            push_str(out, " (");
            push_str(out, addr);
            push_str(out, ")\n");
        },
        _ => {
            push_str(out, " (");
            push_str(out, addr);
            push_str(out, ")\n");
        },
    }
    assert(final(out)@ =~= old(out)@ + row_tail(*v));
}

fn write_depth_line(v: &JsonValue, out: &mut String)
    ensures
        final(out)@ == old(out)@ + depth_line(*v),
{
    let depth: usize = match v.get("depth") {
        Some(d) => match d.as_u64() {
            Some(n) => n as usize,
            None => 0,
        },
        None => 0,
    };
    push_indent(out, depth);
    match v.get("name") {
        Some(JsonValue::String(n)) => push_str(out, n.as_str()),
        _ => push_str(out, "?"),
    }
    let ghost mid = out@;
    assert(mid =~= old(out)@ + indent(depth_of(*v)) + row_name(*v));
    write_row_tail(v, out);
    assert(final(out)@ =~= old(out)@ + depth_line(*v));
}

fn any_depth(data: &[JsonValue]) -> (r: bool)
    ensures
        r == exists|i: int| 0 <= i < data@.len() && (#[trigger] member(data@[i], "depth"@)) is Some,
{
    let mut i: usize = 0;
    while i < data.len()
        invariant
            0 <= i <= data.len(),
            forall|j: int| 0 <= j < i ==> (#[trigger] member(data@[j], "depth"@)) is None,
        decreases data.len() - i,
    {
        if data[i].get("depth").is_some() {
            return true;
        }
        i = i + 1;
    }
    false
}

/// The tree format (see [`tree_out`]); data that is not a call graph fails
/// with `InvalidFormat` and a message naming the tree format.
pub fn format_tree(data: &[JsonValue]) -> (r: Result<String, GhidraError>)
    ensures
        match tree_out(data@) {
            Some(t) => r matches Ok(s) && s@ == t,
            None => r matches Err(GhidraError::InvalidFormat(m)) && m@ == tree_needs_graph_message(),
        },
{
    match tree_text_of(data) {
        Some(t) => Ok(t),
        None => {
            let m = "format 'tree' requires graph data (use with: graph callers, graph callees, graph calls)".to_owned();
            Err(GhidraError::InvalidFormat(m))
        },
    }
}

/// The tree rendering of `data`, when it is a call graph.
fn tree_text_of(data: &[JsonValue]) -> (r: Option<String>)
    ensures
        crate::query::planner::opt_view(r) == tree_out(data@),
{
    if data.len() == 0 {
        return Some("No results".to_owned());
    }
    if let (Some(JsonValue::Array(nodes)), Some(JsonValue::Array(edges))) = (
        data[0].get("nodes"),
        data[0].get("edges"),
    ) {
        return Some(render_call_graph(nodes.as_slice(), edges.as_slice()));
    }
    if any_depth(data) {
        let mut out = String::new();
        let mut i: usize = 0;
        while i < data.len()
            invariant
                0 <= i <= data.len(),
                out@ == concat(
                    data@.subrange(0, i as int).map_values(|v: JsonValue| depth_line(v)),
                ),
            decreases data.len() - i,
        {
            write_depth_line(&data[i], &mut out);
            proof {
                let f = |v: JsonValue| depth_line(v);
                assert(data@.subrange(0, i + 1).map_values(f) =~= data@.subrange(
                    0,
                    i as int,
                ).map_values(f).push(depth_line(data@[i as int])));
                lemma_concat_push(
                    data@.subrange(0, i as int).map_values(f),
                    depth_line(data@[i as int]),
                );
            }
            i = i + 1;
        }
        assert(data@.subrange(0, data.len() as int) =~= data@);
        return Some(out);
    }
    None
}

} // verus!
