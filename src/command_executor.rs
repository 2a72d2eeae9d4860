//! Changes of state that running a command reports.

use vstd::prelude::*;

use crate::dashboard::DataflowInfo;

verus! {

/// A change of state that a command reports.
#[derive(Clone, Debug)]
pub enum StateUpdate {
    DataflowAdded(DataflowInfo),
    DataflowRemoved(String),
    DataflowStatusChanged { name: String, new_status: String },
    NodeStatusChanged { dataflow: String, node: String, status: String },
    SystemMetricsUpdated,
    ConfigurationChanged,
    RefreshRequired,
}

/// How commands are run.
#[derive(Debug, Clone, Default)]
pub enum CommandMode {
    #[default]
    Normal,
}

} // verus!
