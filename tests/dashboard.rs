use dora_protocol_client::dashboard::{AppState, MessageLevel, ThemeConfig, ViewType};
use dora_protocol_client::views::{StateUpdate, ViewAction};

#[test]
fn test_theme_creation() {
    let theme = ThemeConfig::default_dark();
    assert_eq!(theme.name, "dark");

    let theme = ThemeConfig::default_light();
    assert_eq!(theme.name, "light");
}

#[test]
fn test_view_actions() {
    let action = ViewAction::SwitchView(ViewType::Dashboard);
    assert!(matches!(action, ViewAction::SwitchView(_)));

    let action = ViewAction::ExecuteCommand("ps".to_string());
    assert!(matches!(action, ViewAction::ExecuteCommand(_)));

    let action = ViewAction::ShowStatus("Test".to_string());
    assert!(matches!(action, ViewAction::ShowStatus(_)));
}

#[test]
fn test_state_updates() {
    let update = StateUpdate::RefreshDataflows;
    assert!(matches!(update, StateUpdate::RefreshDataflows));

    let update = StateUpdate::UpdateSystemMetrics;
    assert!(matches!(update, StateUpdate::UpdateSystemMetrics));

    let update = StateUpdate::AddStatusMessage("Test".to_string(), MessageLevel::Info);
    assert!(matches!(update, StateUpdate::AddStatusMessage(_, _)));
}

#[test]
fn test_app_state_creation() {
    let state = AppState::default();
    assert!(state.dataflows.is_empty());
    assert!(state.status_messages.is_empty());
    assert!(state.last_error.is_none());
}

#[test]
fn test_message_levels() {
    let info = MessageLevel::Info;
    let success = MessageLevel::Success;
    let warning = MessageLevel::Warning;
    let error = MessageLevel::Error;

    let _info_clone = info.clone();
    let _success_clone = success.clone();
    let _warning_clone = warning.clone();
    let _error_clone = error.clone();
}
