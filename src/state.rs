use crate::node::NodeProfile;
use crate::settings::SystemSettings;
use vstd::prelude::*;

verus! {

/// Position and size of the main window.
#[derive(Clone, Copy, Debug, PartialEq, Eq, Structural)]
pub struct WindowState {
    pub x: i32,
    pub y: i32,
    pub w: i32,
    pub h: i32,
}

impl Default for WindowState {
    fn default() -> (r: WindowState)
        ensures
            r == (WindowState { x: 100, y: 100, w: 1024, h: 600 }),
    {
        WindowState { x: 100, y: 100, w: 1024, h: 600 }
    }
}

impl WindowState {
    /// Records where the window is and how large it is.
    pub fn refresh_window(&mut self, x: i32, y: i32, w: i32, h: i32)
        ensures
            *final(self) == (WindowState { x, y, w, h }),
    {
        self.x = x;
        self.y = y;
        self.w = w;
        self.h = h;
    }
}

/// Everything kept between runs: the window, the node list, the selection,
/// the last folder used for import and export, and the settings.
#[derive(Clone, Debug)]
pub struct AppState {
    pub window: WindowState,
    pub current_node_index: Option<usize>,
    pub current_selection_path: Option<String>,
    pub system_settings: Option<SystemSettings>,
    pub remote_nodes: Vec<NodeProfile>,
}

impl Default for AppState {
    fn default() -> (r: AppState)
        ensures
            r.window == (WindowState { x: 100, y: 100, w: 1024, h: 600 }),
            r.current_node_index.is_none(),
            r.current_selection_path.is_none(),
            r.system_settings.is_none(),
            r.remote_nodes@.len() == 0,
    {
        AppState {
            window: WindowState::default(),
            current_node_index: None,
            current_selection_path: None,
            system_settings: None,
            remote_nodes: Vec::new(),
        }
    }
}

impl AppState {
    /// Remembers the folder of the last file imported or exported.
    pub fn set_current_path(&mut self, path: String)
        ensures
            final(self).current_selection_path == Some(path),
            final(self).window == old(self).window,
            final(self).current_node_index == old(self).current_node_index,
            final(self).system_settings == old(self).system_settings,
            final(self).remote_nodes@ == old(self).remote_nodes@,
    {
        self.current_selection_path = Some(path);
    }
}

} // verus!
