//! Building the graph of a whole project from its manifest, and the figures
//! reported about it.

use vstd::prelude::*;
use vstd::string::*;
use crate::parser::{
    self, enrich_graph, is_enriched, is_graph_of_parse, is_module_community, module_nodes,
    parse_file, spec_grammar_for, tree_sitter_parse, Community, Graph, GraphEdge, GraphNode,
    ParseError,
};
use crate::scanner::FileManifest;
use crate::text::{concat_strs, decimal, signed_decimal, str_eq, u64_to_decimal, i64_to_decimal};

verus! {

broadcast use vstd::string::group_string_axioms;

/// The figures reported after indexing.
pub struct IndexStats {
    pub files: usize,
    pub functions: usize,
    pub classes: usize,
    pub variables: usize,
    pub edges: usize,
    pub communities: usize,
}

/// Everything indexing a project produces.
pub struct IndexedGraph {
    pub nodes: Vec<GraphNode>,
    pub edges: Vec<GraphEdge>,
    pub communities: Vec<Community>,
    pub parse_errors: Vec<ParseError>,
}

/// `g` is what parse_file gives for `item`.
pub open spec fn is_file_result(g: Graph, item: FileManifest) -> bool {
    match spec_grammar_for(item.language@) {
        None => g.nodes@.len() == 0 && g.edges@.len() == 0,
        Some(grammar) => is_graph_of_parse(g, item, tree_sitter_parse(grammar, item.content@)),
    }
}

/// Parsing `item` produced no tree.
pub open spec fn parse_fails(item: FileManifest) -> bool {
    match spec_grammar_for(item.language@) {
        None => false,
        Some(grammar) => tree_sitter_parse(grammar, item.content@) is Failed,
    }
}

pub open spec fn failure_filter() -> spec_fn(FileManifest) -> bool {
    |item: FileManifest| parse_fails(item)
}

/// One "Parse failed" error for each file whose parse failed, in order.
pub open spec fn records_failures(errors: Seq<ParseError>, items: Seq<FileManifest>) -> bool {
    let failed = items.filter(failure_filter());
    &&& errors.len() == failed.len()
    &&& forall|k: int| 0 <= k < failed.len() ==> {
        &&& (#[trigger] errors[k]).file_path@ == failed[k].file_path@
        &&& errors[k].language@ == failed[k].language@
        &&& errors[k].error@ == "Parse failed"@
    }
}

/// The nodes of the graphs, one graph after the other.
pub open spec fn all_nodes(gs: Seq<Graph>) -> Seq<GraphNode>
    decreases gs.len(),
{
    if gs.len() == 0 {
        Seq::empty()
    } else {
        all_nodes(gs.drop_last()) + gs.last().nodes@
    }
}

/// The edges of the graphs, one graph after the other.
pub open spec fn all_edges(gs: Seq<Graph>) -> Seq<GraphEdge>
    decreases gs.len(),
{
    if gs.len() == 0 {
        Seq::empty()
    } else {
        all_edges(gs.drop_last()) + gs.last().edges@
    }
}

/// `gs` holds the graph of each item, in order.
pub open spec fn are_file_results(gs: Seq<Graph>, items: Seq<FileManifest>) -> bool {
    &&& gs.len() == items.len()
    &&& forall|i: int| 0 <= i < items.len() ==> is_file_result(#[trigger] gs[i], items[i])
}

/// The graphs of `items` laid end to end, before enrichment.
pub open spec fn is_raw_index(acc: IndexedGraph, items: Seq<FileManifest>) -> bool {
    &&& exists|gs: Seq<Graph>| are_file_results(gs, items)
        && acc.nodes@ == all_nodes(gs) && acc.edges@ == all_edges(gs)
    &&& acc.communities@.len() == 0
    &&& records_failures(acc.parse_errors@, items)
}

/// Nothing indexed yet.
pub fn new_index() -> (acc: IndexedGraph)
    ensures
        is_raw_index(acc, Seq::empty()),
{
    let acc = IndexedGraph {
        nodes: Vec::new(),
        edges: Vec::new(),
        communities: Vec::new(),
        parse_errors: Vec::new(),
    };
    proof {
        let gs: Seq<Graph> = Seq::empty();
        assert(are_file_results(gs, Seq::empty()));
        assert(acc.nodes@ == all_nodes(gs));
        assert(acc.edges@ == all_edges(gs));
        assert(Seq::<FileManifest>::empty().filter(failure_filter()) =~= Seq::empty()) by {
            reveal(Seq::filter);
        }
    }
    acc
}

proof fn lemma_add_file_graph(
    before: IndexedGraph,
    after: IndexedGraph,
    item: FileManifest,
    g: Graph,
    items: Seq<FileManifest>,
)
    requires
        is_raw_index(before, items),
        is_file_result(g, item),
        after.nodes@ == before.nodes@ + g.nodes@,
        after.edges@ == before.edges@ + g.edges@,
        after.communities@ == before.communities@,
        parse_fails(item) ==> parser::records_parse_failure(before.parse_errors@, after.parse_errors@, item),
        !parse_fails(item) ==> after.parse_errors@ == before.parse_errors@,
    ensures
        is_raw_index(after, items.push(item)),
{
    let gs_old = choose|gs: Seq<Graph>| are_file_results(gs, items)
        && before.nodes@ == all_nodes(gs) && before.edges@ == all_edges(gs);
    let gs = gs_old.push(g);
    assert(gs.drop_last() =~= gs_old);
    assert(are_file_results(gs, items.push(item))) by {
        assert forall|i: int| 0 <= i < items.len() + 1 implies is_file_result(#[trigger] gs[i], items.push(item)[i]) by {
            if i < items.len() {
                assert(gs[i] == gs_old[i]);
            }
        }
    }
    assert(after.nodes@ == all_nodes(gs));
    assert(after.edges@ == all_edges(gs));
    items.lemma_filter_push(item, failure_filter());
    let failed = items.filter(failure_filter());
    if parse_fails(item) {
        assert(items.push(item).filter(failure_filter()) == failed.push(item));
        assert forall|k: int| 0 <= k < failed.len() + 1 implies {
            &&& (#[trigger] after.parse_errors@[k]).file_path@ == failed.push(item)[k].file_path@
            &&& after.parse_errors@[k].language@ == failed.push(item)[k].language@
            &&& after.parse_errors@[k].error@ == "Parse failed"@
        } by {
            if k < failed.len() {
                assert(after.parse_errors@[k] == after.parse_errors@.take(before.parse_errors@.len() as int)[k]);
            }
        }
    }
}

/// Adds the graph of one more file to what was indexed so far: if `acc` held
/// the graphs of some files, it now holds those of the same files followed by
/// `item`.
pub fn add_file_graph(acc: &mut IndexedGraph, item: &FileManifest)
    ensures
        forall|items: Seq<FileManifest>| #[trigger] is_raw_index(*old(acc), items)
            ==> is_raw_index(*final(acc), items.push(*item)),
{
    let ghost before = *acc;
    let mut g = parse_file(item, &mut acc.parse_errors);
    let ghost gv = g;
    acc.nodes.append(&mut g.nodes);
    acc.edges.append(&mut g.edges);
    proof {
        assert forall|items: Seq<FileManifest>| #[trigger] is_raw_index(before, items)
            implies is_raw_index(*acc, items.push(*item)) by {
            lemma_add_file_graph(before, *acc, *item, gv, items);
        }
    }
}

/// Adds to the graph of the whole project what is known once every file is
/// in: hub scores, concerns, and one community per module.
pub fn finish_index(acc: &mut IndexedGraph)
    requires
        old(acc).communities@.len() == 0,
    ensures
        final(acc).nodes@.len() == old(acc).nodes@.len(),
        forall|i: int| 0 <= i < old(acc).nodes@.len() ==> is_enriched(#[trigger] final(acc).nodes@[i], old(acc).nodes@[i]),
        final(acc).edges@ == old(acc).edges@,
        final(acc).parse_errors@ == old(acc).parse_errors@,
        final(acc).communities@.len() == module_nodes(final(acc).nodes@).len(),
        forall|k: int| 0 <= k < final(acc).communities@.len() ==> is_module_community(
            #[trigger] final(acc).communities@[k],
            module_nodes(final(acc).nodes@)[k],
            k,
        ),
{
    let ghost before_comms = acc.communities@;
    enrich_graph(&mut acc.nodes, acc.edges.as_slice(), &mut acc.communities);
    proof {
        assert forall|k: int| 0 <= k < acc.communities@.len() implies is_module_community(
            #[trigger] acc.communities@[k],
            module_nodes(acc.nodes@)[k],
            k,
        ) by {
            assert(acc.communities@[before_comms.len() + k] == acc.communities@[k]);
        }
    }
}

/// The whole graph of a project: the graph of each file in manifest order,
/// then enriched (hub scores, concerns, one community per module).
pub fn build_graph(manifest: &[FileManifest]) -> (idx: IndexedGraph)
    ensures
        exists|gs: Seq<Graph>| {
            &&& are_file_results(gs, manifest@)
            &&& idx.nodes@.len() == all_nodes(gs).len()
            &&& forall|i: int| 0 <= i < idx.nodes@.len() ==> is_enriched(#[trigger] idx.nodes@[i], all_nodes(gs)[i])
            &&& idx.edges@ == all_edges(gs)
        },
        idx.communities@.len() == module_nodes(idx.nodes@).len(),
        forall|k: int| 0 <= k < idx.communities@.len() ==> is_module_community(
            #[trigger] idx.communities@[k],
            module_nodes(idx.nodes@)[k],
            k,
        ),
        records_failures(idx.parse_errors@, manifest@),
{
    let mut acc = new_index();
    let n = manifest.len();
    for i in 0..n
        invariant
            n == manifest@.len(),
            is_raw_index(acc, manifest@.take(i as int)),
    {
        proof {
            assert(manifest@.take(i as int + 1) == manifest@.take(i as int).push(manifest@[i as int]));
        }
        add_file_graph(&mut acc, &manifest[i]);
    }
    proof {
        assert(manifest@.take(n as int) =~= manifest@);
    }
    let ghost gs = choose|gs: Seq<Graph>| are_file_results(gs, manifest@)
        && acc.nodes@ == all_nodes(gs) && acc.edges@ == all_edges(gs);
    finish_index(&mut acc);
    acc
}

pub open spec fn type_filter(t: Seq<char>) -> spec_fn(GraphNode) -> bool {
    |n: GraphNode| n.node_type@ == t
}

/// How many nodes have the type `t`.
pub open spec fn count_of_type(nodes: Seq<GraphNode>, t: Seq<char>) -> nat {
    nodes.filter(type_filter(t)).len()
}

/// How many nodes have the type `t`.
fn count_type(nodes: &[GraphNode], t: &str) -> (c: usize)
    ensures
        c == count_of_type(nodes@, t@),
{
    let mut c: usize = 0;
    let n = nodes.len();
    for i in 0..n
        invariant
            n == nodes@.len(),
            c == count_of_type(nodes@.take(i as int), t@),
            c <= i,
    {
        proof {
            assert(nodes@.take(i as int + 1) == nodes@.take(i as int).push(nodes@[i as int]));
            nodes@.take(i as int).lemma_filter_push(nodes@[i as int], type_filter(t@));
        }
        if str_eq(nodes[i].node_type.as_str(), t) {
            c = c + 1;
        }
    }
    assert(nodes@.take(n as int) =~= nodes@);
    c
}

/// The figures for an index: how many files, function, class and variable
/// nodes, edges and communities it holds.
pub fn index_stats(files: usize, nodes: &[GraphNode], edges: &[GraphEdge], communities: &[Community]) -> (s: IndexStats)
    ensures
        s.files == files,
        s.functions == count_of_type(nodes@, "FUNCTION"@),
        s.classes == count_of_type(nodes@, "CLASS"@),
        s.variables == count_of_type(nodes@, "VARIABLE"@),
        s.edges == edges@.len(),
        s.communities == communities@.len(),
{
    IndexStats {
        files,
        functions: count_type(nodes, "FUNCTION"),
        classes: count_type(nodes, "CLASS"),
        variables: count_type(nodes, "VARIABLE"),
        edges: edges.len(),
        communities: communities.len(),
    }
}

/// The progress line printed before parsing file number `idx` (from 0): one
/// for every hundredth file, "  <idx>/<total> files".
pub fn progress_line(idx: usize, total: usize) -> (line: Option<String>)
    ensures
        idx % 100 == 0 <==> line is Some,
        line matches Some(l) ==> l@ == "  "@ + decimal(idx as nat) + "/"@ + decimal(total as nat) + " files"@,
{
    if idx % 100 == 0 {
        let a = u64_to_decimal(idx as u64);
        let b = u64_to_decimal(total as u64);
        Some(concat_strs(concat_strs(concat_strs(concat_strs("  ", a.as_str()).as_str(), "/").as_str(), b.as_str()).as_str(), " files"))
    } else {
        None
    }
}

/// The name recorded for the analysis mode.
pub fn analysis_mode_name(advanced: bool) -> (name: String)
    ensures
        name@ == if advanced { "advanced"@ } else { "standard"@ },
{
    if advanced { String::from_str("advanced") } else { String::from_str("standard") }
}

/// The verdict of the smoke test on the number of stored nodes: an error when
/// there are none, otherwise "Database OK: <count> nodes".
pub fn smoke_verdict(count: i64) -> (r: Result<String, String>)
    ensures
        count == 0 ==> (r matches Err(e) && e@ == "Database is empty. Run 'index' first."@),
        count != 0 ==> (r matches Ok(m) && m@ == "Database OK: "@ + signed_decimal(count as int) + " nodes"@),
{
    if count == 0 {
        return Err(String::from_str("Database is empty. Run 'index' first."));
    }
    let c = i64_to_decimal(count);
    Ok(concat_strs(concat_strs("Database OK: ", c.as_str()).as_str(), " nodes"))
}

/// The function, class and variable counts of an index never add up to more
/// than its nodes: no node is counted twice.
pub proof fn law_type_counts_fit_in_nodes(nodes: Seq<GraphNode>)
    ensures
        count_of_type(nodes, "FUNCTION"@) + count_of_type(nodes, "CLASS"@)
            + count_of_type(nodes, "VARIABLE"@) <= nodes.len(),
    decreases nodes.len(),
{
    reveal_strlit("FUNCTION");
    reveal_strlit("CLASS");
    reveal_strlit("VARIABLE");
    if nodes.len() > 0 {
        let rest = nodes.drop_last();
        let last = nodes.last();
        law_type_counts_fit_in_nodes(rest);
        assert(nodes == rest.push(last));
        rest.lemma_filter_push(last, type_filter("FUNCTION"@));
        rest.lemma_filter_push(last, type_filter("CLASS"@));
        rest.lemma_filter_push(last, type_filter("VARIABLE"@));
        assert("FUNCTION"@ != "CLASS"@) by { assert("FUNCTION"@.len() != "CLASS"@.len()); }
        assert("FUNCTION"@ != "VARIABLE"@) by { assert("FUNCTION"@[0] != "VARIABLE"@[0]); }
        assert("CLASS"@ != "VARIABLE"@) by { assert("CLASS"@.len() != "VARIABLE"@.len()); }
    } else {
        assert(nodes.filter(type_filter("FUNCTION"@)) =~= Seq::empty()) by { reveal(Seq::filter); }
        assert(nodes.filter(type_filter("CLASS"@)) =~= Seq::empty()) by { reveal(Seq::filter); }
        assert(nodes.filter(type_filter("VARIABLE"@)) =~= Seq::empty()) by { reveal(Seq::filter); }
    }
}

} // verus!
