//! The windows that are tracked and the apps that own them.

use std::collections::HashMap;

use vstd::prelude::*;

use crate::screens;
use crate::screens::SpaceId;

verus! {

/// A window: the process that owns it, and its number within that process.
#[derive(Clone, Copy, Debug, PartialEq, Eq, Structural)]
pub struct WindowId {
    pub pid: i32,
    pub idx: u32,
}

/// The number by which the window server knows a window.
#[derive(Clone, Copy, Debug, PartialEq, Eq, Structural)]
pub struct WindowServerId {
    pub raw: u32,
}

/// A window that the window server can move, with the server's number for it.
#[derive(Clone, Copy, Debug, PartialEq, Eq, Structural)]
pub struct MovableWindow {
    pub window: WindowId,
    pub server_id: WindowServerId,
}

/// What is known of a tracked window.
#[derive(Clone, Copy, Debug, PartialEq, Eq, Structural)]
pub struct WindowState {
    /// The window server's number for it, where it has one.
    pub window_server_id: Option<WindowServerId>,
    /// The space that fits its frame best.
    pub best_space: Option<SpaceId>,
}

/// The number under which the handle of an app's thread is kept.
#[derive(Clone, Copy, Debug, PartialEq, Eq, Structural)]
pub struct AppHandle {
    pub raw: u64,
}

/// The tracked windows.
#[derive(Debug)]
pub struct WindowManager {
    /// The windows, by the key of their number.
    pub windows: HashMap<u64, WindowState>,
    /// The windows, by the window server's number.
    pub window_ids: HashMap<u32, WindowId>,
    /// The window that has the keyboard.
    pub main_window: Option<WindowId>,
    /// The window of a space that had focus last, by the space's number.
    pub last_focused: HashMap<u64, WindowId>,
}

/// The running apps.
#[derive(Debug)]
pub struct AppManager {
    /// The handles of the apps, by process.
    pub apps: HashMap<i32, AppHandle>,
}

/// What the layout engine tells of its workspaces.
#[derive(Debug)]
pub struct LayoutEngine {
    /// The windows of a space's active workspace, by the space's number.
    pub active_windows: HashMap<u64, Vec<WindowId>>,
}

/// The key of a window: the process shifted to start at zero, then the number.
pub open spec fn window_key(window: WindowId) -> u64 {
    ((window.pid + 0x8000_0000) * 0x1_0000_0000 + window.idx) as u64
}

impl WindowId {
    /// The key under which the window is kept.
    pub fn key(self) -> (res: u64)
        ensures
            res == window_key(self),
    {
        let process: u64 = (self.pid as i64 + 0x8000_0000) as u64;
        process * 0x1_0000_0000 + self.idx as u64
    }
}

impl WindowManager {
    /// What is known of `window`, if it is kept.
    pub open spec fn state_of(self, window: WindowId) -> Option<WindowState> {
        screens::lookup(self.windows@, window_key(window))
    }

    /// What is known of `window`, if it is kept.
    pub fn get(&self, window: WindowId) -> (res: Option<WindowState>)
        ensures
            res == self.state_of(window),
    {
        match self.windows.get(&window.key()) {
            Some(state) => Some(*state),
            None => None,
        }
    }

    /// The window that the window server knows as `id`.
    pub fn by_server_id(&self, id: WindowServerId) -> (res: Option<WindowId>)
        ensures
            res == screens::lookup(self.window_ids@, id.raw),
    {
        match self.window_ids.get(&id.raw) {
            Some(window) => Some(*window),
            None => None,
        }
    }

    /// The window of `space` that had focus last.
    pub fn last_focused_window_in_space(&self, space: SpaceId) -> (res: Option<WindowId>)
        ensures
            res == screens::lookup(self.last_focused@, space.raw),
    {
        match self.last_focused.get(&space.raw) {
            Some(window) => Some(*window),
            None => None,
        }
    }
}

impl LayoutEngine {
    /// The windows of the workspace that is active on `space`; none where the
    /// engine does not know the space.
    pub open spec fn active_on(self, space: SpaceId) -> Seq<WindowId> {
        match screens::lookup(self.active_windows@, space.raw) {
            Some(windows) => windows@,
            None => Seq::empty(),
        }
    }

    /// The windows of the workspace that is active on `space`.
    pub fn windows_in_active_workspace(&self, space: SpaceId) -> (res: Vec<WindowId>)
        ensures
            res@ == self.active_on(space),
    {
        let mut res: Vec<WindowId> = Vec::new();
        if let Some(windows) = self.active_windows.get(&space.raw) {
            let mut i: usize = 0;
            while i < windows.len()
                invariant
                    i <= windows.len(),
                    res@ == windows@.take(i as int),
                decreases windows.len() - i,
            {
                res.push(windows[i]);
                i += 1;
            }
        }
        res
    }
}

} // verus!
