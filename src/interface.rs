//! The shapes that the dashboard displays, independent of the backend that
//! produced them.

use vstd::prelude::*;

verus! {

/// One dataflow as the dashboard lists it.
#[derive(Clone, Debug, PartialEq, Eq)]
pub struct DataflowSummary {
    pub id: String,
    pub name: String,
    pub status: String,
    pub nodes: Vec<NodeSummary>,
}

/// One node as the dashboard lists it.
#[derive(Clone, Debug, PartialEq, Eq)]
pub struct NodeSummary {
    pub id: String,
    pub name: String,
    pub status: String,
    pub kind: String,
    pub description: Option<String>,
    pub inputs: Vec<String>,
    pub outputs: Vec<String>,
    pub source: Option<String>,
    pub details: Option<String>,
}

/// Memory figures of a host, in bytes.
#[derive(Clone, Copy, Debug, PartialEq, Eq, Structural)]
pub struct MemoryMetrics {
    pub total_bytes: u64,
    pub used_bytes: u64,
    pub free_bytes: u64,
}

/// Interface preferences as the dashboard holds them.
#[derive(Clone, Debug, PartialEq, Eq)]
pub struct UserPreferencesSnapshot {
    pub theme: String,
    pub auto_refresh_interval_secs: u64,
    pub show_system_info: bool,
    pub default_view: Option<String>,
}

} // verus!
