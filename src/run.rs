use crate::node::{merge_system_settings_to_node_config, merged, node_eq, NodeProfile};
use crate::nodes::{selected_index, selection_result, SelectionError};
use crate::settings::SystemSettings;
use vstd::prelude::*;

verus! {

/// Why the selected node cannot be started.
#[derive(Clone, Copy, Debug, PartialEq, Eq, Structural)]
pub enum RunError {
    /// No row is selected.
    NoSelection,
    /// The selected row is past the end of the list.
    NotFound,
    /// A session is running already.
    AlreadyRunning,
    /// Traffic interception is enabled and the process lacks admin rights.
    NeedsElevation,
}

impl RunError {
    pub fn message(&self) -> (r: &'static str) {
        match self {
            RunError::NoSelection => "Please select a node first.",
            RunError::NotFound => "Selected node not found.",
            RunError::AlreadyRunning => "A node is already running. Please stop it first.",
            RunError::NeedsElevation => "Requires admin privileges. Please restart the application as administrator.",
        }
    }
}

/// Traffic interception is switched on in `s`.
pub open spec fn interception_enabled(s: SystemSettings) -> bool {
    s.tun2proxy_enable == Some(true)
}

/// Traffic interception is on and the process lacks admin rights, so the
/// process must restart elevated before a session can start.
pub fn needs_elevation(settings: &SystemSettings, elevated: bool) -> (r: bool)
    ensures
        r == (interception_enabled(*settings) && !elevated),
{
    let enabled = match settings.tun2proxy_enable {
        Some(b) => b,
        None => false,
    };
    enabled && !elevated
}

/// The error that stops a run, if any, checked in this order: selection,
/// a running session, then admin rights where interception is on.
pub open spec fn run_error(
    sel: Option<usize>,
    len: nat,
    running: bool,
    s: SystemSettings,
    elevated: bool,
) -> Option<RunError> {
    match selection_result(sel, len) {
        Err(SelectionError::NoSelection) => Some(RunError::NoSelection),
        Err(SelectionError::NotFound) => Some(RunError::NotFound),
        Ok(_) => if running {
            Some(RunError::AlreadyRunning)
        } else if interception_enabled(s) && !elevated {
            Some(RunError::NeedsElevation)
        } else {
            None
        },
    }
}

/// The profile to run: a copy of the selected node with the settings merged
/// in. Nothing is changed where a check fails.
pub fn prepare_run(
    nodes: &Vec<NodeProfile>,
    sel: Option<usize>,
    running: bool,
    settings: &SystemSettings,
    elevated: bool,
) -> (r: Result<NodeProfile, RunError>)
    ensures
        match run_error(sel, nodes@.len(), running, *settings, elevated) {
            Some(e) => r == Err::<NodeProfile, RunError>(e),
            None => r matches Ok(n) && node_eq(n, merged(*settings, nodes@[sel.unwrap() as int])),
        },
{
    let i = match selected_index(nodes, sel) {
        Ok(i) => i,
        Err(SelectionError::NoSelection) => return Err(RunError::NoSelection),
        Err(SelectionError::NotFound) => return Err(RunError::NotFound),
    };
    if running {
        return Err(RunError::AlreadyRunning);
    }
    if needs_elevation(settings, elevated) {
        return Err(RunError::NeedsElevation);
    }
    let mut node = nodes[i].duplicate();
    merge_system_settings_to_node_config(settings, &mut node);
    Ok(node)
}

} // verus!
