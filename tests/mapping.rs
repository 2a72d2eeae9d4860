use dora_protocol_client::error::InterfaceError;
use dora_protocol_client::interface;
use dora_protocol_client::mapping::{
    describe_node_source, format_node_kind, format_node_status, format_status, format_ui_mode,
    map_memory_to_ui, map_node_to_ui, map_preferences_to_protocol,
    map_preferences_to_protocol_now, map_preferences_to_ui, map_summaries_to_ui,
    map_summary_to_ui, merge_preferences, remote_execute,
};
use dora_protocol_client::protocol::{
    DataflowStatus, DataflowSummary, NodeDescriptor, NodeKind, NodeSource,
    NodeStatus, Timestamp, UiMode, UserPreferencesSnapshot,
};

const ID: u128 = 0x67e5_5044_10b1_426f_9247_bb68_0e5f_e0c8;
const STAMP: Timestamp = Timestamp { seconds: 1_700_000_000, nanos: 0 };

fn node(source: NodeSource) -> NodeDescriptor {
    NodeDescriptor {
        id: "camera".to_string(),
        name: None,
        status: NodeStatus::Initializing,
        kind: NodeKind::Operator,
        inputs: vec!["tick".to_string()],
        outputs: vec!["image".to_string(), "depth".to_string()],
        description: Some("captures frames".to_string()),
        source,
    }
}

#[test]
fn status_names_are_fixed_lowercase_words() {
    let all = [
        (DataflowStatus::Pending, "pending"),
        (DataflowStatus::Running, "running"),
        (DataflowStatus::Stopped, "stopped"),
        (DataflowStatus::Destroyed, "destroyed"),
        (DataflowStatus::Failed, "failed"),
        (DataflowStatus::Unknown, "unknown"),
    ];
    for (s, name) in all {
        assert_eq!(format_status(s), name);
    }
    assert_eq!(format_node_status(NodeStatus::Initializing), "initializing");
    assert_eq!(format_node_status(NodeStatus::Running), "running");
    assert_eq!(format_node_status(NodeStatus::Stopped), "stopped");
    assert_eq!(format_node_status(NodeStatus::Failed), "failed");
    assert_eq!(format_node_status(NodeStatus::Unknown), "unknown");
    assert_eq!(format_node_kind(NodeKind::Runtime), "runtime");
    assert_eq!(format_node_kind(NodeKind::Operator), "operator");
    assert_eq!(format_node_kind(NodeKind::Custom), "custom");
    assert_eq!(format_ui_mode(UiMode::Minimal), "minimal");
    assert_eq!(format_ui_mode(UiMode::Tui), "tui");
}

#[test]
fn node_sources_are_described() {
    let git = NodeSource::Git { repo: "https://x/r.git".to_string(), rev: Some("v1".to_string()) };
    assert_eq!(describe_node_source(&git).as_deref(), Some("https://x/r.git (v1)"));
    let git = NodeSource::Git { repo: "r".to_string(), rev: None };
    assert_eq!(describe_node_source(&git).as_deref(), Some("r"));
    let py = NodeSource::Python { module: "m.py".to_string(), environment: Some("venv".to_string()) };
    assert_eq!(describe_node_source(&py).as_deref(), Some("m.py (env: venv)"));
    let py = NodeSource::Python { module: "m.py".to_string(), environment: None };
    assert_eq!(describe_node_source(&py).as_deref(), Some("m.py"));
    let wasm = NodeSource::Wasm { module: "w.wasm".to_string() };
    assert_eq!(describe_node_source(&wasm).as_deref(), Some("w.wasm"));
    let local = NodeSource::Local { path: Some("./n".to_string()) };
    assert_eq!(describe_node_source(&local).as_deref(), Some("./n"));
    assert_eq!(describe_node_source(&NodeSource::Local { path: None }), None);
    assert_eq!(describe_node_source(&NodeSource::Unknown), None);
}

#[test]
fn node_maps_field_by_field() {
    let n = map_node_to_ui(node(NodeSource::Wasm { module: "w".to_string() }));
    assert_eq!(n.id, "camera");
    assert_eq!(n.name, "");
    assert_eq!(n.status, "initializing");
    assert_eq!(n.kind, "operator");
    assert_eq!(n.description.as_deref(), Some("captures frames"));
    assert_eq!(n.inputs, vec!["tick".to_string()]);
    assert_eq!(n.outputs, vec!["image".to_string(), "depth".to_string()]);
    assert_eq!(n.source.as_deref(), Some("w"));
    assert_eq!(n.details, None);
}

#[test]
fn listed_dataflow_keeps_name_and_status() {
    let list = vec![DataflowSummary {
        id: ID,
        name: Some("demo".to_string()),
        status: DataflowStatus::Running,
        updated_at: STAMP,
        nodes: vec![],
    }];
    let summaries = map_summaries_to_ui(list);
    assert_eq!(summaries.len(), 1);
    assert_eq!(summaries[0].name, "demo");
    assert_eq!(summaries[0].status, "running");
    assert!(summaries[0].nodes.is_empty());
}

#[test]
fn unnamed_dataflow_is_shown_under_its_id() {
    let s = map_summary_to_ui(DataflowSummary {
        id: ID,
        name: None,
        status: DataflowStatus::Failed,
        updated_at: STAMP,
        nodes: vec![node(NodeSource::Unknown), node(NodeSource::Local { path: None })],
    });
    assert_eq!(s.id, "67e55044-10b1-426f-9247-bb680e5fe0c8");
    assert_eq!(s.name, "67e55044-10b1-426f-9247-bb680e5fe0c8");
    assert_eq!(s.status, "failed");
    assert_eq!(s.nodes.len(), 2);
}

#[test]
fn free_memory_saturates_at_zero() {
    let m = map_memory_to_ui(1024, 4096);
    assert_eq!(m.free_bytes, 0);
    assert_eq!(m.total_bytes, 1024);
    assert_eq!(m.used_bytes, 4096);
    assert_eq!(map_memory_to_ui(8192, 4096).free_bytes, 4096);
    assert_eq!(map_memory_to_ui(u64::MAX, 0).free_bytes, u64::MAX);
}

#[test]
fn stored_preferences_map_to_dashboard_defaults() {
    let p = map_preferences_to_ui(UserPreferencesSnapshot {
        theme: None,
        ui_mode: None,
        auto_refresh: None,
        updated_at: STAMP,
    });
    assert_eq!(p.theme, "auto");
    assert_eq!(p.auto_refresh_interval_secs, 1);
    assert!(p.show_system_info);
    assert_eq!(p.default_view, None);

    let p = map_preferences_to_ui(UserPreferencesSnapshot {
        theme: Some("dark".to_string()),
        ui_mode: Some(UiMode::Cli),
        auto_refresh: Some(false),
        updated_at: STAMP,
    });
    assert_eq!(p.theme, "dark");
    assert_eq!(p.auto_refresh_interval_secs, 0);
    assert!(!p.show_system_info);
    assert_eq!(p.default_view.as_deref(), Some("cli"));
}

#[test]
fn preferences_round_trip_keeps_only_the_flag() {
    let ui = interface::UserPreferencesSnapshot {
        theme: "light".to_string(),
        auto_refresh_interval_secs: 7,
        show_system_info: false,
        default_view: Some("tui".to_string()),
    };
    let wire = map_preferences_to_protocol(&ui, STAMP);
    assert_eq!(wire.theme.as_deref(), Some("light"));
    assert_eq!(wire.ui_mode, None);
    assert_eq!(wire.auto_refresh, Some(true));
    assert_eq!(wire.updated_at, STAMP);
    let back = map_preferences_to_ui(wire);
    assert_eq!(back.theme, "light");
    assert_eq!(back.auto_refresh_interval_secs, 1);
    assert!(back.show_system_info);
    assert_eq!(back.default_view, None);

    let off = interface::UserPreferencesSnapshot { auto_refresh_interval_secs: 0, ..ui };
    let wire = map_preferences_to_protocol_now(&off);
    assert_eq!(wire.auto_refresh, Some(false));
    assert!(wire.updated_at.seconds > 0);
}

#[test]
fn saving_only_a_theme_keeps_the_stored_refresh() {
    let stored = UserPreferencesSnapshot {
        theme: Some("dark".to_string()),
        ui_mode: Some(UiMode::Tui),
        auto_refresh: Some(false),
        updated_at: STAMP,
    };
    let update = UserPreferencesSnapshot {
        theme: Some("light".to_string()),
        ui_mode: None,
        auto_refresh: None,
        updated_at: Timestamp { seconds: 1_700_000_100, nanos: 5 },
    };
    let saved = merge_preferences(&stored, &update);
    assert_eq!(saved.theme.as_deref(), Some("light"));
    assert_eq!(saved.ui_mode, Some(UiMode::Tui));
    assert_eq!(saved.auto_refresh, Some(false));
    assert_eq!(saved.updated_at, update.updated_at);
    let loaded = map_preferences_to_ui(saved);
    assert_eq!(loaded.theme, "light");
    assert_eq!(loaded.auto_refresh_interval_secs, 0);
}

#[test]
fn remote_backend_does_not_run_commands() {
    let r = remote_execute(&vec!["dora".to_string(), "list".to_string()], "/tmp");
    assert_eq!(r, Err(InterfaceError::Unimplemented));
}
