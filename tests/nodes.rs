use overtls_manager::forms::{node_dialog_title, node_from_form, qr_dialog_title, NodeForm};
use overtls_manager::node::NodeProfile;
use overtls_manager::nodes::{
    apply_dialog_result, delete_selected, reconcile_poll, selected_index, selected_node,
    DialogPoll, SelectionError,
};
use overtls_manager::run::{prepare_run, RunError};
use overtls_manager::settings::SystemSettings;
use overtls_manager::state::{AppState, WindowState};

fn node(host: &str) -> NodeProfile {
    node_from_form(NodeForm {
        remarks: host.to_string(),
        tunnel_path: "/t/".to_string(),
        disable_tls: false,
        client_id: String::new(),
        server_host: host.to_string(),
        server_port: "443".to_string(),
        server_domain: String::new(),
        cafile: String::new(),
        dangerous_mode: false,
    })
}

fn hosts(nodes: &[NodeProfile]) -> Vec<String> {
    nodes.iter().map(|n| n.client.as_ref().unwrap().server_host.clone()).collect()
}

#[test]
fn edit_result_replaces_only_its_row() {
    let mut nodes = vec![node("a"), node("b"), node("c")];
    apply_dialog_result(&mut nodes, Some(1), node("x"));
    assert_eq!(hosts(&nodes), vec!["a", "x", "c"]);
}

#[test]
fn new_result_is_appended() {
    let mut nodes = vec![node("a"), node("b")];
    apply_dialog_result(&mut nodes, None, node("n"));
    assert_eq!(hosts(&nodes), vec!["a", "b", "n"]);
}

#[test]
fn polls_of_dialog_channels() {
    let mut nodes = vec![node("a")];
    assert!(reconcile_poll(&mut nodes, Some(0), DialogPoll::Pending));
    assert!(!reconcile_poll(&mut nodes, Some(0), DialogPoll::Ready(None)));
    assert!(!reconcile_poll(&mut nodes, None, DialogPoll::Closed));
    assert_eq!(hosts(&nodes), vec!["a"]);
    assert!(!reconcile_poll(&mut nodes, Some(0), DialogPoll::Ready(Some(node("e")))));
    assert!(!reconcile_poll(&mut nodes, None, DialogPoll::Ready(Some(node("f")))));
    assert_eq!(hosts(&nodes), vec!["e", "f"]);
}

#[test]
fn selection_checks() {
    let nodes = vec![node("a"), node("b")];
    assert_eq!(selected_index(&nodes, None), Err(SelectionError::NoSelection));
    assert_eq!(selected_index(&nodes, Some(2)), Err(SelectionError::NotFound));
    assert_eq!(selected_index(&nodes, Some(1)), Ok(1));
    assert_eq!(selected_node(&nodes, Some(0)).unwrap().remarks.as_deref(), Some("a"));
    assert_eq!(SelectionError::NoSelection.message(), "No node selected.");
    assert_eq!(SelectionError::NotFound.message(), "Selected node not found.");
}

#[test]
fn delete_removes_selected_and_clears_selection() {
    let mut nodes = vec![node("a"), node("b"), node("c")];
    let mut sel = Some(1);
    let removed = delete_selected(&mut nodes, &mut sel).unwrap();
    assert_eq!(removed.remarks.as_deref(), Some("b"));
    assert_eq!(hosts(&nodes), vec!["a", "c"]);
    assert_eq!(sel, None);
    let mut past = Some(2);
    assert_eq!(delete_selected(&mut nodes, &mut past).err(), Some(SelectionError::NotFound));
    assert_eq!(past, Some(2));
    assert_eq!(nodes.len(), 2);
}

#[test]
fn run_checks_in_order() {
    let nodes = vec![node("a")];
    let mut s = SystemSettings::default();
    assert_eq!(prepare_run(&nodes, None, true, &s, false).err(), Some(RunError::NoSelection));
    assert_eq!(prepare_run(&nodes, Some(3), true, &s, false).err(), Some(RunError::NotFound));
    assert_eq!(prepare_run(&nodes, Some(0), true, &s, false).err(), Some(RunError::AlreadyRunning));
    assert_eq!(prepare_run(&nodes, Some(0), false, &s, false).err(), Some(RunError::NeedsElevation));
    s.tun2proxy_enable = Some(false);
    s.listen_port = 9000;
    let run = prepare_run(&nodes, Some(0), false, &s, false).unwrap();
    assert_eq!(run.client.as_ref().unwrap().listen_port, 9000);
    assert_eq!(nodes[0].client.as_ref().unwrap().listen_port, 1080);
    assert_eq!(RunError::NoSelection.message(), "Please select a node first.");
}

#[test]
fn dialog_titles() {
    assert_eq!(node_dialog_title(None), "New Node");
    let a = node("srv");
    assert_eq!(node_dialog_title(Some(&a)), "Node details of 'srv'");
    let mut b = node("x");
    b.remarks = None;
    assert_eq!(node_dialog_title(Some(&b)), "Node without remarks");
    assert_eq!(qr_dialog_title(&Some("srv".to_string())), "Node QR Code - 'srv'");
    assert_eq!(qr_dialog_title(&Some(String::new())), "Node QR Code");
    assert_eq!(qr_dialog_title(&None), "Node QR Code");
}

#[test]
fn app_state_defaults() {
    let mut st = AppState::default();
    assert_eq!(st.window, WindowState { x: 100, y: 100, w: 1024, h: 600 });
    assert!(st.remote_nodes.is_empty());
    assert!(st.current_node_index.is_none());
    st.set_current_path("/home/u".to_string());
    assert_eq!(st.current_selection_path.as_deref(), Some("/home/u"));
    st.window.refresh_window(1, 2, 3, 4);
    assert_eq!(st.window, WindowState { x: 1, y: 2, w: 3, h: 4 });
}

#[test]
fn elevation_needed_only_with_interception() {
    let mut s = SystemSettings::default();
    assert!(overtls_manager::run::needs_elevation(&s, false));
    assert!(!overtls_manager::run::needs_elevation(&s, true));
    s.tun2proxy_enable = None;
    assert!(!overtls_manager::run::needs_elevation(&s, false));
}
