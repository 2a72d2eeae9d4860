//! Wire data contracts exchanged with the gateway. JSON documents that the
//! library does not interpret are held as their text.

use vstd::prelude::*;

verus! {

/// A point in time: seconds since the Unix epoch and the nanoseconds within
/// that second.
#[derive(Clone, Copy, Debug, PartialEq, Eq, Structural)]
pub struct Timestamp {
    pub seconds: i64,
    pub nanos: u32,
}

/// Relies on `chrono::Utc::now`: the current time. Nothing is known of its
/// value beyond its shape.
#[verifier::external_body]
pub(crate) fn utc_now() -> (r: Timestamp)
    ensures
        r.nanos < 1_000_000_000,
{
    let now = chrono::Utc::now();
    Timestamp { seconds: now.timestamp(), nanos: now.timestamp_subsec_nanos() }
}

/// The text that `uuid::Uuid::from_u128(id)` displays as: its hyphenated,
/// lower-case form.
pub uninterp spec fn uuid_text(id: u128) -> Seq<char>;

/// Relies on `uuid::Uuid::from_u128` and `<uuid::Uuid as Display>::fmt`: the
/// hyphenated form, 36 characters long, which depends on the id alone.
#[verifier::external_body]
pub(crate) fn uuid_string(id: u128) -> (r: String)
    ensures
        r@ == uuid_text(id),
        r@.len() == 36,
{
    uuid::Uuid::from_u128(id).to_string()
}

/// Summary information for a known dataflow.
#[derive(Clone, Debug, PartialEq, Eq)]
pub struct DataflowSummary {
    pub id: u128,
    pub name: Option<String>,
    pub status: DataflowStatus,
    pub updated_at: Timestamp,
    pub nodes: Vec<NodeDescriptor>,
}

/// Detailed information about a dataflow, including node metadata.
#[derive(Clone, Debug, PartialEq, Eq)]
pub struct DataflowDetail {
    pub summary: DataflowSummary,
    pub nodes: Vec<NodeDescriptor>,
}

/// Known lifecycle states for a dataflow.
#[derive(Clone, Copy, Debug, PartialEq, Eq, Structural)]
pub enum DataflowStatus {
    Pending,
    Running,
    Stopped,
    Destroyed,
    Failed,
    Unknown,
}

/// Metadata describing a node within a dataflow.
#[derive(Clone, Debug, PartialEq, Eq)]
pub struct NodeDescriptor {
    pub id: String,
    pub name: Option<String>,
    pub status: NodeStatus,
    pub kind: NodeKind,
    pub inputs: Vec<String>,
    pub outputs: Vec<String>,
    pub description: Option<String>,
    pub source: NodeSource,
}

/// High-level node status.
#[derive(Clone, Copy, Debug, PartialEq, Eq, Structural)]
pub enum NodeStatus {
    Initializing,
    Running,
    Stopped,
    Failed,
    Unknown,
}

/// Core node type.
#[derive(Clone, Copy, Debug, PartialEq, Eq, Structural)]
pub enum NodeKind {
    Runtime,
    Operator,
    Custom,
}

/// Where a node's code comes from.
#[derive(Clone, Debug, PartialEq, Eq)]
pub enum NodeSource {
    Local { path: Option<String> },
    Git { repo: String, rev: Option<String> },
    Wasm { module: String },
    Python { module: String, environment: Option<String> },
    Unknown,
}

/// Handle to an asynchronous operation (start, stop or destroy).
#[derive(Clone, Debug, PartialEq, Eq)]
pub struct OperationHandle {
    pub handle: String,
    pub submitted_at: Timestamp,
}

/// Request payload for starting a new dataflow.
#[derive(Clone, Debug, PartialEq, Eq)]
pub struct StartDataflowRequest {
    /// Raw YAML descriptor to launch.
    pub descriptor: String,
    /// Optional name to assign when launching.
    pub name: Option<String>,
    /// Whether to enable UV mode for Python nodes.
    pub uv: bool,
}

/// State of an asynchronous operation.
#[derive(Clone, Copy, Debug, PartialEq, Eq, Structural)]
pub enum OperationState {
    Pending,
    Running,
    Completed,
    Failed,
}

/// Status payload for asynchronous operations.
#[derive(Clone, Debug, PartialEq, Eq)]
pub struct OperationStatus {
    pub handle: String,
    pub state: OperationState,
    pub message: Option<String>,
    /// The operation's result, as JSON text.
    pub result: Option<String>,
}

/// Log event emitted by the gateway stream.
#[derive(Clone, Debug, PartialEq, Eq)]
pub struct LogEvent {
    pub timestamp: Timestamp,
    pub level: LogLevel,
    pub node: Option<String>,
    pub line: String,
}

/// Log severity levels.
#[derive(Clone, Copy, Debug, PartialEq, Eq, Structural)]
pub enum LogLevel {
    Trace,
    Debug,
    Info,
    Warn,
    Error,
}

/// Snapshot of persisted user preferences relevant to UI clients. A field
/// left `None` in an update keeps the value stored before.
#[derive(Clone, Debug, PartialEq, Eq)]
pub struct UserPreferencesSnapshot {
    pub theme: Option<String>,
    pub ui_mode: Option<UiMode>,
    pub auto_refresh: Option<bool>,
    pub updated_at: Timestamp,
}

/// Preferred interface mode for a client.
#[derive(Clone, Copy, Debug, PartialEq, Eq, Structural)]
pub enum UiMode {
    Auto,
    Cli,
    Tui,
    Minimal,
}

/// Error envelope returned by the gateway.
#[derive(Clone, Debug, PartialEq, Eq)]
pub struct ErrorEnvelope {
    pub error: GatewayError,
}

/// Structured error for client consumption.
#[derive(Clone, Debug, PartialEq, Eq)]
pub struct GatewayError {
    pub code: ErrorCode,
    pub message: String,
    /// Structured details, as JSON text.
    pub details: Option<String>,
}

/// Canonical error codes.
#[derive(Clone, Copy, Debug, PartialEq, Eq, Structural)]
pub enum ErrorCode {
    ResourceNotFound,
    InvalidArgument,
    AlreadyExists,
    FailedPrecondition,
    InternalError,
    NotImplemented,
    Unavailable,
}

} // verus!
