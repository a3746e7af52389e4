//! What a command asks of the world outside the reactor.

use std::collections::HashMap;

use vstd::prelude::*;

use crate::geometry::{Direction, MonitorDirection, Point};
use crate::screens::SpaceId;
use crate::windows::{AppHandle, MovableWindow, WindowId, WindowServerId};

verus! {

/// A command on the layout.
///
/// A text is the part of the command that only the layout engine reads, in the
/// engine's own notation.
#[derive(Debug, PartialEq, Eq)]
pub enum LayoutCommand {
    NextWorkspace(String),
    PrevWorkspace(String),
    SwitchToWorkspace(String),
    SwitchToLastWorkspace,
    CreateWorkspace,
    MoveWindowToWorkspace { args: String },
    MoveWorkspaceToMonitor { direction: MonitorDirection, wrap_around: bool },
    MoveNodeToMonitor { direction: MonitorDirection, wrap_around: bool },
    /// Any other command: one on the tree of windows.
    Tree(String),
}

impl LayoutCommand {
    /// Whether the command switches to another workspace.
    pub open spec fn switches(self) -> bool {
        ||| self is NextWorkspace
        ||| self is PrevWorkspace
        ||| self is SwitchToWorkspace
        ||| self is SwitchToLastWorkspace
    }

    /// Whether the command switches to another workspace.
    pub fn is_workspace_switch(&self) -> (res: bool)
        ensures
            res == self.switches(),
    {
        matches!(
            self,
            LayoutCommand::NextWorkspace(_)
                | LayoutCommand::PrevWorkspace(_)
                | LayoutCommand::SwitchToWorkspace(_)
                | LayoutCommand::SwitchToLastWorkspace
        )
    }
}

/// A command on the metrics that the log keeps, in the log's own notation.
#[derive(Debug, PartialEq, Eq)]
pub struct MetricsCommand {
    pub text: String,
}

/// The settings.
///
/// A text holds a part of the configuration, in a notation in which parts have the
/// same text exactly where they are equal.
#[derive(Debug, PartialEq, Eq)]
pub struct Settings {
    pub layout: String,
    pub window_snapping: String,
    /// The settings besides these two.
    pub other: String,
}

/// The configuration, in the notation of its settings.
#[derive(Debug, PartialEq, Eq)]
pub struct Config {
    pub keys: String,
    pub settings: Settings,
    pub virtual_workspaces: String,
    /// The configuration besides these parts.
    pub other: String,
}

impl Clone for Settings {
    fn clone(&self) -> (res: Self)
        ensures
            res == *self,
    {
        Settings {
            layout: self.layout.clone(),
            window_snapping: self.window_snapping.clone(),
            other: self.other.clone(),
        }
    }
}

impl Clone for Config {
    fn clone(&self) -> (res: Self)
        ensures
            res == *self,
    {
        Config {
            keys: self.keys.clone(),
            settings: self.settings.clone(),
            virtual_workspaces: self.virtual_workspaces.clone(),
            other: self.other.clone(),
        }
    }
}

/// Whether a workspace switch is under way.
#[derive(Clone, Copy, Debug, PartialEq, Eq, Structural)]
pub enum WorkspaceSwitchState {
    Inactive,
    Active,
}

/// The record of workspace switches.
#[derive(Clone, Copy, Debug, PartialEq, Eq, Structural)]
pub struct WorkspaceSwitchManager {
    /// The number of the latest switch. It starts again at zero when it runs out.
    pub workspace_switch_generation: u64,
    /// The switch that is active, by its number.
    pub active_workspace_switch: Option<u64>,
    /// Whether the latest layout command was a switch.
    pub workspace_switch_state: WorkspaceSwitchState,
}

/// What the response to a layout command is.
#[derive(Clone, Copy, Debug, PartialEq, Eq, Structural)]
pub enum ResponseSource {
    /// What the layout engine answered to the latest call.
    EngineReply,
    /// The response that asks for nothing.
    Empty,
}

/// A request to the window manager's controller.
#[derive(Clone, Copy, Debug, PartialEq, Eq, Structural)]
pub enum WmCmd {
    ShowMissionControlAll,
    ShowMissionControlCurrent,
}

/// A call of the layout engine with a command on the tree of windows.
#[derive(Debug, PartialEq, Eq)]
pub struct EngineRequest {
    /// The space that workspace commands act on.
    pub space: Option<SpaceId>,
    /// The spaces on show with the middles of their screens, in the order of the
    /// screens. The engine is handed the spaces alone, ordered by position.
    pub visible_spaces: Vec<(SpaceId, Point)>,
    /// The middle of the screen that shows a space, by the space's number.
    pub visible_space_centers: HashMap<u64, Point>,
    /// The command.
    pub command: LayoutCommand,
}

/// An `EngineRequest`, with its collections as mathematical ones.
pub struct EngineRequestView {
    pub space: Option<SpaceId>,
    pub visible_spaces: Seq<(SpaceId, Point)>,
    pub visible_space_centers: Map<u64, Point>,
    pub command: LayoutCommand,
}

/// A request to raise windows and to focus one.
#[derive(Debug, PartialEq, Eq)]
pub struct RaiseRequest {
    /// The windows to raise first.
    pub raise_windows: Vec<WindowId>,
    /// The window to focus, and where the pointer goes with it, if anywhere.
    pub focus_window: Option<(WindowId, Option<Point>)>,
    /// The apps to ask, by process.
    pub app_handles: HashMap<i32, AppHandle>,
}

/// A `RaiseRequest`, with its collections as mathematical ones.
pub struct RaiseRequestView {
    pub raise_windows: Seq<WindowId>,
    pub focus_window: Option<(WindowId, Option<Point>)>,
    pub app_handles: Map<i32, AppHandle>,
}

impl View for EngineRequest {
    type V = EngineRequestView;

    open spec fn view(&self) -> EngineRequestView {
        EngineRequestView {
            space: self.space,
            visible_spaces: self.visible_spaces@,
            visible_space_centers: self.visible_space_centers@,
            command: self.command,
        }
    }
}

impl View for RaiseRequest {
    type V = RaiseRequestView;

    open spec fn view(&self) -> RaiseRequestView {
        RaiseRequestView {
            raise_windows: self.raise_windows@,
            focus_window: self.focus_window,
            app_handles: self.app_handles@,
        }
    }
}

/// One thing that happens outside the reactor, over the forms `E` of a request to
/// the layout engine and `R` of one to raise windows.
///
/// The effects of a command take place in the order in which they are listed. One
/// that fails (a message that does not arrive, a window that cannot be moved, a
/// layout that cannot be brought up to date) does not stop those behind it.
#[derive(Debug, PartialEq, Eq)]
pub enum EffectOf<E, R> {
    /// The positions of the floating windows of a space are stored.
    StoreFloatingPositions(SpaceId),
    /// The record of workspace switches takes this value. The mark places the
    /// change among the other effects; the reactor's own record holds the last.
    RecordSwitch(WorkspaceSwitchManager),
    /// The configuration takes this value. Like the mark above, this one places the
    /// change among the other effects; the reactor's own configuration holds the last.
    InstallConfig(Config),
    /// The layout engine is called with a command on the workspaces of a space.
    VirtualWorkspaceCommand { space: SpaceId, command: LayoutCommand },
    /// The layout engine is called with a command on the tree of windows.
    EngineCommand(E),
    /// The response to a layout command is acted on.
    LayoutResponse { response: ResponseSource, workspace_space: Option<SpaceId> },
    /// The log is told of a command on its metrics.
    Metrics(MetricsCommand),
    /// The layout engine takes over the layout settings.
    SetLayoutSettings(String),
    /// The layout engine takes over the settings of the virtual workspaces.
    UpdateVirtualWorkspaceSettings(String),
    /// Dragging takes over the settings of window snapping.
    UpdateDragConfig(String),
    /// The stack line is told of a new configuration.
    StackLineConfigUpdated(Config),
    /// The menu bar is told of a new configuration.
    MenuConfigUpdated(Config),
    /// The controller is told of a new configuration.
    WmConfigUpdated(Config),
    /// The layout is brought up to date, under the two flags of that call.
    UpdateLayout(bool, bool),
    /// The tree of a space is described in the log, under the text and the flag of that
    /// call.
    DebugTree(SpaceId, &'static str, bool),
    /// The characters of a text, and `end` right behind them, are written to the
    /// standard output.
    Print { text: String, end: char },
    /// The process ends with this code.
    Exit(i32),
    /// The window server switches to the space next to the current one.
    SwitchSpace(Direction),
    /// The layout engine is told that a window of a space has focus.
    WindowFocused(SpaceId, WindowId),
    /// Windows are raised.
    Raise(R),
    /// The window server gives a window of a process the keyboard.
    MakeKeyWindow(i32, WindowServerId),
    /// The controller is asked for something.
    Wm(WmCmd),
    /// Mission control is noted as shown or not.
    SetMissionControlActive(bool),
    /// The pointer goes to a point.
    Warp(Point),
    /// A window is asked to close.
    CloseWindow(WindowId),
    /// The window server moves a window to the space with a number.
    MoveWindowToSpace(MovableWindow, u64),
}

/// An effect.
pub type Effect = EffectOf<EngineRequest, RaiseRequest>;

/// An effect, with its collections as mathematical ones.
pub type EffectView = EffectOf<EngineRequestView, RaiseRequestView>;

impl View for EffectOf<EngineRequest, RaiseRequest> {
    type V = EffectOf<EngineRequestView, RaiseRequestView>;

    open spec fn view(&self) -> EffectOf<EngineRequestView, RaiseRequestView> {
        match *self {
            EffectOf::StoreFloatingPositions(space) => EffectOf::StoreFloatingPositions(space),
            EffectOf::RecordSwitch(record) => EffectOf::RecordSwitch(record),
            EffectOf::InstallConfig(config) => EffectOf::InstallConfig(config),
            EffectOf::VirtualWorkspaceCommand { space, command } => {
                EffectOf::VirtualWorkspaceCommand { space, command }
            },
            EffectOf::EngineCommand(request) => EffectOf::EngineCommand(request@),
            EffectOf::LayoutResponse { response, workspace_space } => {
                EffectOf::LayoutResponse { response, workspace_space }
            },
            EffectOf::Metrics(command) => EffectOf::Metrics(command),
            EffectOf::SetLayoutSettings(text) => EffectOf::SetLayoutSettings(text),
            EffectOf::UpdateVirtualWorkspaceSettings(text) => {
                EffectOf::UpdateVirtualWorkspaceSettings(text)
            },
            EffectOf::UpdateDragConfig(text) => EffectOf::UpdateDragConfig(text),
            EffectOf::StackLineConfigUpdated(config) => EffectOf::StackLineConfigUpdated(config),
            EffectOf::MenuConfigUpdated(config) => EffectOf::MenuConfigUpdated(config),
            EffectOf::WmConfigUpdated(config) => EffectOf::WmConfigUpdated(config),
            EffectOf::UpdateLayout(first, second) => EffectOf::UpdateLayout(first, second),
            EffectOf::DebugTree(space, text, flag) => EffectOf::DebugTree(space, text, flag),
            EffectOf::Print { text, end } => EffectOf::Print { text, end },
            EffectOf::Exit(code) => EffectOf::Exit(code),
            EffectOf::SwitchSpace(direction) => EffectOf::SwitchSpace(direction),
            EffectOf::WindowFocused(space, window) => EffectOf::WindowFocused(space, window),
            EffectOf::Raise(request) => EffectOf::Raise(request@),
            EffectOf::MakeKeyWindow(pid, window) => EffectOf::MakeKeyWindow(pid, window),
            EffectOf::Wm(command) => EffectOf::Wm(command),
            EffectOf::SetMissionControlActive(active) => {
                EffectOf::SetMissionControlActive(active)
            },
            EffectOf::Warp(point) => EffectOf::Warp(point),
            EffectOf::CloseWindow(window) => EffectOf::CloseWindow(window),
            EffectOf::MoveWindowToSpace(window, space) => {
                EffectOf::MoveWindowToSpace(window, space)
            },
        }
    }
}

} // verus!
