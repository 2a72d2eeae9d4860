//! The dashboard's own state: its views, status messages and the dataflows
//! it shows.

use vstd::prelude::*;

verus! {

/// A screen of the dashboard.
#[derive(Clone, Debug, PartialEq, Eq)]
pub enum ViewType {
    Dashboard,
    DataflowManager,
    SystemMonitor,
    Help,
    LogViewer { target: String },
}

/// Severity of a status message.
#[derive(Clone, Copy, Debug, PartialEq, Eq, Structural)]
pub enum MessageLevel {
    Info,
    Success,
    Warning,
    Error,
}

/// A message shown in the status line.
#[derive(Clone, Debug, PartialEq, Eq)]
pub struct StatusMessage {
    pub text: String,
    pub level: MessageLevel,
}

/// A dataflow as the dashboard tracks it.
#[derive(Clone, Debug, PartialEq, Eq, Default)]
pub struct DataflowInfo {
    pub id: String,
    pub name: String,
    pub status: String,
}

/// What the dashboard currently shows.
#[derive(Clone, Debug)]
pub struct AppState {
    pub dataflows: Vec<DataflowInfo>,
    pub status_messages: Vec<StatusMessage>,
    pub last_error: Option<String>,
}

impl Default for AppState {
    /// A state with no dataflows, no messages and no error.
    fn default() -> (r: Self)
        ensures
            r.dataflows@.len() == 0,
            r.status_messages@.len() == 0,
            r.last_error is None,
    {
        AppState { dataflows: Vec::new(), status_messages: Vec::new(), last_error: None }
    }
}

/// The colour theme, by name.
#[derive(Clone, Debug, PartialEq, Eq)]
pub struct ThemeConfig {
    pub name: String,
}

impl ThemeConfig {
    /// The dark theme.
    pub fn default_dark() -> (r: Self)
        ensures
            r.name@ == "dark"@,
    {
        ThemeConfig { name: "dark".to_string() }
    }

    /// The light theme.
    pub fn default_light() -> (r: Self)
        ensures
            r.name@ == "light"@,
    {
        ThemeConfig { name: "light".to_string() }
    }
}

} // verus!
