//! The records the database and the JSON export hold.

use vstd::prelude::*;
use crate::parser::{self, GraphEdge, GraphNode, Metadata};
use crate::text::opt_view;
use crate::config::views;

verus! {

/// A graph node as stored.
pub struct Node {
    pub id: String,
    pub node_type: String,
    pub name: String,
    pub file_path: Option<String>,
    pub start_line: Option<i64>,
    pub end_line: Option<i64>,
    pub language: Option<String>,
    pub metadata: Metadata,
}

/// A graph edge as stored; `id` is the row number the database gives it.
pub struct Edge {
    pub id: Option<i64>,
    pub source_id: String,
    pub target_id: String,
    pub edge_type: String,
    pub metadata: Metadata,
}

pub struct Community {
    pub id: i64,
    pub label: String,
    pub node_ids: Vec<String>,
}

/// When a file was last indexed, and the hash of its content then.
pub struct FileHash {
    pub file_path: String,
    pub content_hash: String,
    pub last_indexed: String,
}

pub struct FileManifestEntry {
    pub file_path: String,
    pub language: String,
    pub size: i64,
    pub content_hash: String,
}

impl Node {
    /// The stored form of a graph node: the same fields.
    pub fn from_graph_node(n: &GraphNode) -> (r: Node)
        ensures
            r.id@ == n.id@,
            r.node_type@ == n.node_type@,
            r.name@ == n.name@,
            opt_view(r.file_path) == opt_view(n.file_path),
            r.start_line == n.start_line,
            r.end_line == n.end_line,
            opt_view(r.language) == opt_view(n.language),
            r.metadata.same_as(n.metadata),
    {
        Node {
            id: n.id.clone(),
            node_type: n.node_type.clone(),
            name: n.name.clone(),
            file_path: parser::opt_clone(&n.file_path),
            start_line: n.start_line,
            end_line: n.end_line,
            language: parser::opt_clone(&n.language),
            metadata: n.metadata.duplicate(),
        }
    }
}

impl Edge {
    /// The stored form of a graph edge, before the database numbers it.
    pub fn from_graph_edge(e: &GraphEdge) -> (r: Edge)
        ensures
            r.id is None,
            r.source_id@ == e.source_id@,
            r.target_id@ == e.target_id@,
            r.edge_type@ == e.edge_type@,
            r.metadata.same_as(e.metadata),
    {
        Edge {
            id: None,
            source_id: e.source_id.clone(),
            target_id: e.target_id.clone(),
            edge_type: e.edge_type.clone(),
            metadata: e.metadata.duplicate(),
        }
    }
}

impl Community {
    /// The stored form of a community: the same fields.
    pub fn from_graph_community(c: &parser::Community) -> (r: Community)
        ensures
            r.id == c.id,
            r.label@ == c.label@,
            views(r.node_ids@) == views(c.node_ids@),
    {
        Community { id: c.id, label: c.label.clone(), node_ids: parser::clone_strings(&c.node_ids) }
    }
}

} // verus!
