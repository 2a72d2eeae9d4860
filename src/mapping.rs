//! Pure mappings from the gateway's wire contracts to the dashboard's shapes.

use vstd::prelude::*;

use crate::error::InterfaceError;
use crate::interface;
use crate::protocol::{
    uuid_string, uuid_text, utc_now, DataflowStatus, DataflowSummary, NodeDescriptor, NodeKind,
    NodeSource, NodeStatus, Timestamp, UiMode, UserPreferencesSnapshot,
};

verus! {

/// The display name of a dataflow status.
pub open spec fn status_text(s: DataflowStatus) -> Seq<char> {
    match s {
        DataflowStatus::Pending => "pending"@,
        DataflowStatus::Running => "running"@,
        DataflowStatus::Stopped => "stopped"@,
        DataflowStatus::Destroyed => "destroyed"@,
        DataflowStatus::Failed => "failed"@,
        DataflowStatus::Unknown => "unknown"@,
    }
}

/// The display name of a node kind.
pub open spec fn node_kind_text(k: NodeKind) -> Seq<char> {
    match k {
        NodeKind::Runtime => "runtime"@,
        NodeKind::Operator => "operator"@,
        NodeKind::Custom => "custom"@,
    }
}

/// The display name of a node status.
pub open spec fn node_status_text(s: NodeStatus) -> Seq<char> {
    match s {
        NodeStatus::Initializing => "initializing"@,
        NodeStatus::Running => "running"@,
        NodeStatus::Stopped => "stopped"@,
        NodeStatus::Failed => "failed"@,
        NodeStatus::Unknown => "unknown"@,
    }
}

/// The display name of an interface mode.
pub open spec fn ui_mode_text(m: UiMode) -> Seq<char> {
    match m {
        UiMode::Auto => "auto"@,
        UiMode::Cli => "cli"@,
        UiMode::Tui => "tui"@,
        UiMode::Minimal => "minimal"@,
    }
}

/// The text of an optional string, empty where there is none.
pub open spec fn text_or_empty(o: Option<String>) -> Seq<char> {
    match o {
        Some(s) => s@,
        None => Seq::empty(),
    }
}

/// The one-line description of where a node's code comes from.
pub open spec fn source_text(s: NodeSource) -> Option<Seq<char>> {
    match s {
        NodeSource::Local { path } => match path {
            Some(p) => Some(p@),
            None => None,
        },
        NodeSource::Git { repo, rev } => Some(
            match rev {
                Some(r) => repo@ + " ("@ + r@ + ")"@,
                None => repo@,
            },
        ),
        NodeSource::Wasm { module } => Some(module@),
        NodeSource::Python { module, environment } => Some(
            match environment {
                Some(e) => module@ + " (env: "@ + e@ + ")"@,
                None => module@,
            },
        ),
        NodeSource::Unknown => None,
    }
}

/// The character view of an optional string.
pub open spec fn opt_text(o: Option<String>) -> Option<Seq<char>> {
    match o {
        Some(s) => Some(s@),
        None => None,
    }
}

/// `u` is what a node descriptor `n` maps to.
pub open spec fn node_maps_to(n: NodeDescriptor, u: interface::NodeSummary) -> bool {
    &&& u.id@ == n.id@
    &&& u.name@ == text_or_empty(n.name)
    &&& u.status@ == node_status_text(n.status)
    &&& u.kind@ == node_kind_text(n.kind)
    &&& u.description == n.description
    &&& u.inputs == n.inputs
    &&& u.outputs == n.outputs
    &&& opt_text(u.source) == source_text(n.source)
    &&& u.details is None
}

/// `u` is what a dataflow summary `s` maps to.
pub open spec fn summary_maps_to(s: DataflowSummary, u: interface::DataflowSummary) -> bool {
    &&& u.id@ == uuid_text(s.id)
    &&& u.name@ == match s.name {
        Some(n) => n@,
        None => uuid_text(s.id),
    }
    &&& u.status@ == status_text(s.status)
    &&& u.nodes@.len() == s.nodes@.len()
    &&& forall|i: int| 0 <= i < s.nodes@.len() ==> node_maps_to(s.nodes@[i], #[trigger] u.nodes@[i])
}

pub fn format_status(status: DataflowStatus) -> (r: String)
    ensures
        r@ == status_text(status),
{
    match status {
        DataflowStatus::Pending => "pending".to_string(),
        DataflowStatus::Running => "running".to_string(),
        DataflowStatus::Stopped => "stopped".to_string(),
        DataflowStatus::Destroyed => "destroyed".to_string(),
        DataflowStatus::Failed => "failed".to_string(),
        DataflowStatus::Unknown => "unknown".to_string(),
    }
}

pub fn format_node_kind(kind: NodeKind) -> (r: String)
    ensures
        r@ == node_kind_text(kind),
{
    match kind {
        NodeKind::Runtime => "runtime".to_string(),
        NodeKind::Operator => "operator".to_string(),
        NodeKind::Custom => "custom".to_string(),
    }
}

pub fn format_node_status(status: NodeStatus) -> (r: String)
    ensures
        r@ == node_status_text(status),
{
    match status {
        NodeStatus::Initializing => "initializing".to_string(),
        NodeStatus::Running => "running".to_string(),
        NodeStatus::Stopped => "stopped".to_string(),
        NodeStatus::Failed => "failed".to_string(),
        NodeStatus::Unknown => "unknown".to_string(),
    }
}

pub fn format_ui_mode(mode: UiMode) -> (r: String)
    ensures
        r@ == ui_mode_text(mode),
{
    match mode {
        UiMode::Auto => "auto".to_string(),
        UiMode::Cli => "cli".to_string(),
        UiMode::Tui => "tui".to_string(),
        UiMode::Minimal => "minimal".to_string(),
    }
}

/// `first` followed by `second`.
fn concat(first: &str, second: &str) -> (r: String)
    ensures
        r@ == first@ + second@,
{
    let mut s = first.to_string();
    s.append(second);
    s
}

/// Describes where a node's code comes from, in one line; `None` where that
/// is not known.
pub fn describe_node_source(source: &NodeSource) -> (r: Option<String>)
    ensures
        opt_text(r) == source_text(*source),
{
    match source {
        NodeSource::Local { path } => match path {
            Some(p) => Some(p.clone()),
            None => None,
        },
        NodeSource::Git { repo, rev } => match rev {
            Some(rev) => {
                let mut s = concat(repo.as_str(), " (");
                s.append(rev.as_str());
                s.append(")");
                Some(s)
            },
            None => Some(repo.clone()),
        },
        NodeSource::Wasm { module } => Some(module.clone()),
        NodeSource::Python { module, environment } => match environment {
            Some(env) => {
                let mut s = concat(module.as_str(), " (env: ");
                s.append(env.as_str());
                s.append(")");
                Some(s)
            },
            None => Some(module.clone()),
        },
        NodeSource::Unknown => None,
    }
}

/// Maps one node descriptor to the dashboard's node shape.
pub fn map_node_to_ui(node: NodeDescriptor) -> (r: interface::NodeSummary)
    ensures
        node_maps_to(node, r),
{
    let source = describe_node_source(&node.source);
    let status = format_node_status(node.status);
    let kind = format_node_kind(node.kind);
    let name = match node.name {
        Some(n) => n,
        None => String::new(),
    };
    interface::NodeSummary {
        id: node.id,
        name,
        status,
        kind,
        description: node.description,
        inputs: node.inputs,
        outputs: node.outputs,
        source,
        details: None,
    }
}

/// Maps one dataflow summary to the dashboard's shape; a summary without a
/// name is shown under its id.
pub fn map_summary_to_ui(summary: DataflowSummary) -> (r: interface::DataflowSummary)
    ensures
        summary_maps_to(summary, r),
{
    let id = uuid_string(summary.id);
    let name = match summary.name {
        Some(n) => n,
        None => uuid_string(summary.id),
    };
    let status = format_status(summary.status);
    let ghost src = summary.nodes@;
    let mut rest = summary.nodes;
    let mut nodes: Vec<interface::NodeSummary> = Vec::new();
    assert(rest@.subrange(0, rest@.len() as int) =~= rest@);
    while rest.len() > 0
        invariant
            nodes@.len() + rest@.len() == src.len(),
            rest@ == src.subrange(nodes@.len() as int, src.len() as int),
            forall|i: int| 0 <= i < nodes@.len() ==> node_maps_to(src[i], #[trigger] nodes@[i]),
        decreases rest@.len(),
    {
        let ghost k = nodes@.len() as int;
        let node = rest.remove(0);
        assert(node == src[k]);
        assert(rest@ =~= src.subrange(k + 1, src.len() as int));
        nodes.push(map_node_to_ui(node));
    }
    interface::DataflowSummary { id, name, status, nodes }
}

/// Maps a list of dataflow summaries, keeping their order.
pub fn map_summaries_to_ui(list: Vec<DataflowSummary>) -> (r: Vec<interface::DataflowSummary>)
    ensures
        r@.len() == list@.len(),
        forall|i: int| 0 <= i < list@.len() ==> summary_maps_to(list@[i], #[trigger] r@[i]),
{
    let ghost src = list@;
    let mut rest = list;
    let mut out: Vec<interface::DataflowSummary> = Vec::new();
    assert(rest@.subrange(0, rest@.len() as int) =~= rest@);
    while rest.len() > 0
        invariant
            out@.len() + rest@.len() == src.len(),
            rest@ == src.subrange(out@.len() as int, src.len() as int),
            forall|i: int| 0 <= i < out@.len() ==> summary_maps_to(src[i], #[trigger] out@[i]),
        decreases rest@.len(),
    {
        let ghost k = out@.len() as int;
        let s = rest.remove(0);
        assert(s == src[k]);
        assert(rest@ =~= src.subrange(k + 1, src.len() as int));
        out.push(map_summary_to_ui(s));
    }
    out
}

/// The memory left free: `total - used`, and `0` where more is used than
/// the total.
pub open spec fn free_bytes(total: u64, used: u64) -> u64 {
    if used > total {
        0
    } else {
        (total - used) as u64
    }
}

/// The memory figures of a metrics snapshot, with the free amount derived.
pub fn map_memory_to_ui(total_memory_bytes: u64, used_memory_bytes: u64) -> (r: interface::MemoryMetrics)
    ensures
        r.total_bytes == total_memory_bytes,
        r.used_bytes == used_memory_bytes,
        r.free_bytes == free_bytes(total_memory_bytes, used_memory_bytes),
{
    interface::MemoryMetrics {
        total_bytes: total_memory_bytes,
        used_bytes: used_memory_bytes,
        free_bytes: total_memory_bytes.saturating_sub(used_memory_bytes),
    }
}

/// Whether automatic refresh is on: an unset flag counts as on.
pub open spec fn auto_refresh_on(flag: Option<bool>) -> bool {
    match flag {
        Some(b) => b,
        None => true,
    }
}

/// The refresh interval in seconds that the flag stands for.
pub open spec fn refresh_interval(on: bool) -> u64 {
    if on {
        1
    } else {
        0
    }
}

/// The dashboard's preferences for a stored snapshot.
pub open spec fn preferences_view(s: UserPreferencesSnapshot) -> (Seq<char>, u64, bool, Option<Seq<char>>) {
    (
        match s.theme {
            Some(t) => t@,
            None => "auto"@,
        },
        refresh_interval(auto_refresh_on(s.auto_refresh)),
        auto_refresh_on(s.auto_refresh),
        match s.ui_mode {
            Some(m) => Some(ui_mode_text(m)),
            None => None,
        },
    )
}

/// The dashboard's view of its own preferences.
pub open spec fn ui_preferences_view(p: interface::UserPreferencesSnapshot) -> (Seq<char>, u64, bool, Option<Seq<char>>) {
    (p.theme@, p.auto_refresh_interval_secs, p.show_system_info, opt_text(p.default_view))
}

/// Maps stored preferences to the dashboard's: no theme reads as `auto`, and
/// the refresh flag becomes an interval of one second (on or unset) or zero.
pub fn map_preferences_to_ui(snapshot: UserPreferencesSnapshot) -> (r: interface::UserPreferencesSnapshot)
    ensures
        ui_preferences_view(r) == preferences_view(snapshot),
{
    let on = match snapshot.auto_refresh {
        Some(b) => b,
        None => true,
    };
    let theme = match snapshot.theme {
        Some(t) => t,
        None => "auto".to_string(),
    };
    let default_view = match snapshot.ui_mode {
        Some(m) => Some(format_ui_mode(m)),
        None => None,
    };
    interface::UserPreferencesSnapshot {
        theme,
        auto_refresh_interval_secs: if on { 1 } else { 0 },
        show_system_info: on,
        default_view,
    }
}

/// The wire form of the dashboard's preferences, stamped `now`.
pub open spec fn protocol_preferences(p: interface::UserPreferencesSnapshot, now: Timestamp) -> UserPreferencesSnapshot {
    UserPreferencesSnapshot {
        theme: Some(p.theme),
        ui_mode: None,
        auto_refresh: Some(p.auto_refresh_interval_secs > 0),
        updated_at: now,
    }
}

/// The stored preferences after an update is saved over them: each field
/// that the update leaves unset keeps its stored value.
pub open spec fn merged_preferences(stored: UserPreferencesSnapshot, update: UserPreferencesSnapshot) -> UserPreferencesSnapshot {
    UserPreferencesSnapshot {
        theme: if update.theme is Some { update.theme } else { stored.theme },
        ui_mode: if update.ui_mode is Some { update.ui_mode } else { stored.ui_mode },
        auto_refresh: if update.auto_refresh is Some { update.auto_refresh } else { stored.auto_refresh },
        updated_at: update.updated_at,
    }
}

fn clone_text(o: &Option<String>) -> (r: Option<String>)
    ensures
        r == *o,
{
    match o {
        Some(s) => Some(s.clone()),
        None => None,
    }
}

/// Saves `update` over `stored`: fields set in the update replace the stored
/// ones, unset fields keep them.
pub fn merge_preferences(stored: &UserPreferencesSnapshot, update: &UserPreferencesSnapshot) -> (r: UserPreferencesSnapshot)
    ensures
        r == merged_preferences(*stored, *update),
{
    UserPreferencesSnapshot {
        theme: if update.theme.is_some() { clone_text(&update.theme) } else { clone_text(&stored.theme) },
        ui_mode: if update.ui_mode.is_some() { update.ui_mode } else { stored.ui_mode },
        auto_refresh: if update.auto_refresh.is_some() { update.auto_refresh } else { stored.auto_refresh },
        updated_at: update.updated_at,
    }
}

/// Saving an update that sets only the theme, then loading, gives the new
/// theme and the refresh setting stored before, unchanged.
pub proof fn law_partial_save_keeps_refresh(stored: UserPreferencesSnapshot, update: UserPreferencesSnapshot)
    requires
        update.theme is Some,
        update.ui_mode is None,
        update.auto_refresh is None,
    ensures
        merged_preferences(stored, update).auto_refresh == stored.auto_refresh,
        merged_preferences(stored, update).ui_mode == stored.ui_mode,
        preferences_view(merged_preferences(stored, update)).0 == update.theme->0@,
        preferences_view(merged_preferences(stored, update)).1 == preferences_view(stored).1,
        preferences_view(merged_preferences(stored, update)).2 == preferences_view(stored).2,
{
}

/// Sending the dashboard's preferences and reading them back keeps the theme
/// and whether refresh is on, but not the interval: any positive interval
/// comes back as one second, and the mode comes back unset.
pub proof fn law_preferences_round_trip(p: interface::UserPreferencesSnapshot, now: Timestamp)
    ensures
        preferences_view(protocol_preferences(p, now)) == (
            p.theme@,
            refresh_interval(p.auto_refresh_interval_secs > 0),
            p.auto_refresh_interval_secs > 0,
            None::<Seq<char>>,
        ),
{
}

/// Derived free memory never wraps: it is zero when more is used than the
/// total, and otherwise the difference.
pub proof fn law_free_memory_saturates(total: u64, used: u64)
    ensures
        used > total ==> free_bytes(total, used) == 0,
        used <= total ==> free_bytes(total, used) + used == total,
        free_bytes(total, used) <= total,
{
}

/// A display name: non-empty and made of lower-case ASCII letters.
pub open spec fn is_display_name(s: Seq<char>) -> bool {
    s.len() > 0 && forall|i: int| 0 <= i < s.len() ==> 'a' <= #[trigger] s[i] && s[i] <= 'z'
}

/// Every status and kind of the wire maps to a display name of its own.
pub proof fn law_display_names(s: DataflowStatus, t: DataflowStatus, n: NodeStatus, m: NodeStatus, k: NodeKind, j: NodeKind)
    ensures
        is_display_name(status_text(s)),
        is_display_name(node_status_text(n)),
        is_display_name(node_kind_text(k)),
        s != t ==> status_text(s) != status_text(t),
        n != m ==> node_status_text(n) != node_status_text(m),
        k != j ==> node_kind_text(k) != node_kind_text(j),
{
    reveal_strlit("pending");
    reveal_strlit("running");
    reveal_strlit("stopped");
    reveal_strlit("destroyed");
    reveal_strlit("failed");
    reveal_strlit("unknown");
    reveal_strlit("initializing");
    reveal_strlit("runtime");
    reveal_strlit("operator");
    reveal_strlit("custom");
    if s != t {
        assert(status_text(s)[0] != status_text(t)[0]);
    }
    if n != m {
        assert(node_status_text(n)[0] != node_status_text(m)[0]);
    }
    if k != j {
        assert(node_kind_text(k)[0] != node_kind_text(j)[0]);
    }
}

/// Maps the dashboard's preferences to the wire form, stamped `now`: the
/// theme is sent, the mode is left unset, and the interval only tells
/// whether refresh is on.
pub fn map_preferences_to_protocol(prefs: &interface::UserPreferencesSnapshot, now: Timestamp) -> (r: UserPreferencesSnapshot)
    ensures
        r == protocol_preferences(*prefs, now),
{
    UserPreferencesSnapshot {
        theme: Some(prefs.theme.clone()),
        ui_mode: None,
        auto_refresh: Some(prefs.auto_refresh_interval_secs > 0),
        updated_at: now,
    }
}

/// [`map_preferences_to_protocol`] stamped with the current time.
pub fn map_preferences_to_protocol_now(prefs: &interface::UserPreferencesSnapshot) -> (r: UserPreferencesSnapshot)
    ensures
        r.theme == Some(prefs.theme),
        r.ui_mode is None,
        r.auto_refresh == Some(prefs.auto_refresh_interval_secs > 0),
{
    map_preferences_to_protocol(prefs, utc_now())
}

/// The remote backend does not run commands: it always reports the
/// capability as unimplemented.
pub fn remote_execute(argv: &Vec<String>, working_dir: &str) -> (r: Result<(), InterfaceError>)
    ensures
        r matches Err(InterfaceError::Unimplemented),
{
    Err(InterfaceError::Unimplemented)
}

} // verus!
