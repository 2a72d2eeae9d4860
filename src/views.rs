//! What a view asks of the dashboard.

use vstd::prelude::*;

use crate::dashboard::{MessageLevel, ViewType};

verus! {

/// An action that a view requests.
#[derive(Clone, Debug, PartialEq, Eq)]
pub enum ViewAction {
    SwitchView(ViewType),
    ExecuteCommand(String),
    ShowStatus(String),
}

/// A change of state that a view requests.
#[derive(Clone, Debug, PartialEq, Eq)]
pub enum StateUpdate {
    RefreshDataflows,
    UpdateSystemMetrics,
    AddStatusMessage(String, MessageLevel),
}

} // verus!
