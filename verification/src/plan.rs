//! What each command calls for, as a list of effects.

use vstd::prelude::*;

use crate::effects::{
    Config, EffectView, EngineRequestView, LayoutCommand, MetricsCommand, RaiseRequestView,
    ResponseSource, WmCmd, WorkspaceSwitchManager, WorkspaceSwitchState,
};
use crate::geometry;
use crate::geometry::{Direction, MonitorDirection, Point};
use crate::reactor::Reactor;
use crate::screens;
use crate::screens::{DisplaySelector, Screen, SpaceId, SpaceManager};
use crate::windows::{AppHandle, MovableWindow, WindowId, WindowManager, WindowServerId};

verus! {

/// The one effect, if the condition holds.
pub open spec fn when(condition: bool, effect: EffectView) -> Seq<EffectView> {
    if condition {
        seq![effect]
    } else {
        Seq::empty()
    }
}

/// The pointer goes to `point`, if the event tap is there to move it.
pub open spec fn warp_plan(reactor: Reactor, point: Point) -> Seq<EffectView> {
    when(reactor.communication_manager.event_tap_tx, EffectView::Warp(point))
}

// Searches for a monitor.

/// The screens other than the one numbered `id` that lie on the `direction` side
/// of `origin`.
pub open spec fn others_towards(id: u32, origin: Point, direction: Direction) -> spec_fn(
    Screen,
) -> bool {
    |s: Screen| s.screen_id != id && geometry::lies_towards(direction, origin, s.center)
}

/// The index of the screen to go on with when there is none in `direction`: the one at
/// the opposite end, that is, among the screens other than `current` that lie the other
/// way, the one that lies furthest (of several equally far, the last). If none lies
/// that way, it is the first screen other than `current`.
pub open spec fn wrap_index(
    screens: Seq<Screen>,
    current: Screen,
    direction: Direction,
) -> Option<int> {
    let behind = others_towards(current.screen_id, current.center, geometry::opposite_of(direction));
    match screens::furthest_where(screens, behind, geometry::opposite_of(direction)) {
        Some(i) => Some(i),
        None => screens::first_where(screens, screens::lacks_id(current.screen_id)),
    }
}

/// The screen in `direction`; if focus has no neighbour there and `wrap_around` is
/// set, the screen at the opposite end.
pub open spec fn adjacent_screen(
    manager: SpaceManager,
    current: Screen,
    direction: Direction,
    wrap_around: bool,
) -> Option<Screen> {
    match manager.focus_neighbours.towards(direction) {
        Some(screen) => Some(screen),
        None => if wrap_around {
            match wrap_index(manager.screens@, current, direction) {
                Some(i) => Some(manager.screens@[i]),
                None => None,
            }
        } else {
            None
        },
    }
}

/// The screen listed behind `current`; behind the last one, the first one if
/// `wrap_around` is set. There is none where a lone screen is listed, or `current`
/// is not.
pub open spec fn next_screen(
    screens: Seq<Screen>,
    current: Screen,
    wrap_around: bool,
) -> Option<Screen> {
    match screens::first_where(screens, screens::has_id(current.screen_id)) {
        Some(i) => if screens.len() <= 1 {
            None
        } else if i + 1 < screens.len() {
            Some(screens[i + 1])
        } else if wrap_around {
            Some(screens[0])
        } else {
            None
        },
        None => None,
    }
}

/// The screen that a move to a monitor leads to from `current`.
pub open spec fn target_screen(
    manager: SpaceManager,
    current: Screen,
    direction: MonitorDirection,
    wrap_around: bool,
) -> Option<Screen> {
    match direction {
        MonitorDirection::Left => {
            adjacent_screen(manager, current, Direction::Left, wrap_around)
        },
        MonitorDirection::Right => {
            adjacent_screen(manager, current, Direction::Right, wrap_around)
        },
        MonitorDirection::Next => next_screen(manager.screens@, current, wrap_around),
    }
}

/// A move from a space to the one that another monitor shows.
#[derive(Clone, Copy, Debug, PartialEq, Eq, Structural)]
pub struct MonitorMove {
    /// The space that is left.
    pub from: SpaceId,
    /// The space that is entered.
    pub to: SpaceId,
    /// The middle of the monitor that shows it.
    pub center: Point,
}

/// Why a move to another monitor is refused.
#[derive(Clone, Copy, Debug, PartialEq, Eq, Structural)]
pub enum MoveRefusal {
    /// The main window is to be moved, and there is none.
    NoWindow,
    /// There is no space for commands to act on.
    NoCurrentSpace,
    /// That space is found on no screen.
    NoCurrentScreen,
    /// There is no monitor in the direction given.
    NoTargetMonitor,
    /// The monitor shows no space.
    NoTargetSpace,
    /// The monitor shows the space that is to be left.
    AlreadyThere,
    /// The workspace to be moved has no windows.
    NothingToMove,
}

/// What comes of a command to move to another monitor.
#[derive(Clone, Copy, Debug, PartialEq, Eq, Structural)]
pub enum MoveReport {
    /// It is refused.
    Refused(MoveRefusal),
    /// A workspace of so many windows is moved.
    Workspace { route: MonitorMove, windows: usize },
    /// The main window is moved, if the window server has a number for it.
    Window { route: MonitorMove, window: WindowId },
}

/// The move that a command to `direction` makes: from the space that commands act
/// on, if it is found on a screen, to the space of the screen that the move leads
/// to, if that is another space. Otherwise, what is first found wanting.
pub open spec fn monitor_move_of(
    manager: SpaceManager,
    direction: MonitorDirection,
    wrap_around: bool,
) -> Result<MonitorMove, MoveRefusal> {
    match manager.command_space {
        None => Err(MoveRefusal::NoCurrentSpace),
        Some(from) => match screens::lookup(manager.screens_by_space@, from.raw) {
            None => Err(MoveRefusal::NoCurrentScreen),
            Some(current) => match target_screen(manager, current, direction, wrap_around) {
                None => Err(MoveRefusal::NoTargetMonitor),
                Some(target) => match target.space {
                    None => Err(MoveRefusal::NoTargetSpace),
                    Some(to) => if to == from {
                        Err(MoveRefusal::AlreadyThere)
                    } else {
                        Ok(MonitorMove { from, to, center: target.center })
                    },
                },
            },
        },
    }
}

/// The move that a command on the active workspace makes. A workspace without windows
/// is not moved.
pub open spec fn workspace_move_of(
    reactor: Reactor,
    direction: MonitorDirection,
    wrap_around: bool,
) -> Result<MonitorMove, MoveRefusal> {
    match monitor_move_of(reactor.space_manager, direction, wrap_around) {
        Ok(route) => if reactor.layout_engine.active_on(route.from).len() == 0 {
            Err(MoveRefusal::NothingToMove)
        } else {
            Ok(route)
        },
        Err(reason) => Err(reason),
    }
}

/// The main window and the move that a command on it makes.
pub open spec fn node_move_of(
    reactor: Reactor,
    direction: MonitorDirection,
    wrap_around: bool,
) -> Result<(WindowId, MonitorMove), MoveRefusal> {
    match reactor.window_manager.main_window {
        None => Err(MoveRefusal::NoWindow),
        Some(window) => match monitor_move_of(reactor.space_manager, direction, wrap_around) {
            Ok(route) => Ok((window, route)),
            Err(reason) => Err(reason),
        },
    }
}

/// What comes of `command`, if it is one to move to another monitor.
pub open spec fn move_report_of(reactor: Reactor, command: LayoutCommand) -> Option<MoveReport> {
    match command {
        LayoutCommand::MoveWorkspaceToMonitor { direction, wrap_around } => Some(
            match workspace_move_of(reactor, direction, wrap_around) {
                Ok(route) => MoveReport::Workspace {
                    route,
                    windows: reactor.layout_engine.active_on(route.from).len() as usize,
                },
                Err(reason) => MoveReport::Refused(reason),
            },
        ),
        LayoutCommand::MoveNodeToMonitor { direction, wrap_around } => Some(
            match node_move_of(reactor, direction, wrap_around) {
                Ok((window, route)) => MoveReport::Window { route, window },
                Err(reason) => MoveReport::Refused(reason),
            },
        ),
        _ => None,
    }
}

// Moves to a monitor.

/// `window` with the window server's number for it, if it is kept and has one.
pub open spec fn movable_of(manager: WindowManager, window: WindowId) -> Option<MovableWindow> {
    match manager.state_of(window) {
        Some(state) => match state.window_server_id {
            Some(server_id) => Some(MovableWindow { window, server_id }),
            None => None,
        },
        None => None,
    }
}

/// Those of `windows` that the window server can move, in order.
pub open spec fn movable_windows_of(manager: WindowManager, windows: Seq<WindowId>) -> Seq<
    MovableWindow,
>
    decreases windows.len(),
{
    if windows.len() == 0 {
        Seq::empty()
    } else {
        let before = movable_windows_of(manager, windows.drop_last());
        match movable_of(manager, windows.last()) {
            Some(movable) => before.push(movable),
            None => before,
        }
    }
}

/// The windows are moved to `space`, one by one.
pub open spec fn move_windows_plan(windows: Seq<MovableWindow>, space: SpaceId) -> Seq<
    EffectView,
> {
    windows.map_values(
        |window: MovableWindow| EffectView::MoveWindowToSpace(window, space.raw),
    )
}

/// The windows of the active workspace are moved to the other monitor's space, and
/// the pointer follows.
pub open spec fn workspace_to_monitor_plan(
    reactor: Reactor,
    direction: MonitorDirection,
    wrap_around: bool,
) -> Seq<EffectView> {
    match workspace_move_of(reactor, direction, wrap_around) {
        Ok(route) => {
            let windows = reactor.layout_engine.active_on(route.from);
            move_windows_plan(movable_windows_of(reactor.window_manager, windows), route.to)
                + warp_plan(reactor, route.center)
        },
        Err(_) => Seq::empty(),
    }
}

/// The main window is moved to the other monitor's space.
pub open spec fn node_to_monitor_plan(
    reactor: Reactor,
    direction: MonitorDirection,
    wrap_around: bool,
) -> Seq<EffectView> {
    match node_move_of(reactor, direction, wrap_around) {
        Ok((window, route)) => match movable_of(reactor.window_manager, window) {
            Some(movable) => seq![EffectView::MoveWindowToSpace(movable, route.to.raw)],
            None => Seq::empty(),
        },
        Err(_) => Seq::empty(),
    }
}

// Layout commands.

/// The number of the switch that comes after the one numbered `generation`.
pub open spec fn generation_after(generation: u64) -> u64 {
    if generation == u64::MAX {
        0
    } else {
        (generation + 1) as u64
    }
}

/// The record once a switch has been given its number.
pub open spec fn record_of_new_switch(
    record: WorkspaceSwitchManager,
) -> WorkspaceSwitchManager {
    let generation = generation_after(record.workspace_switch_generation);
    WorkspaceSwitchManager {
        workspace_switch_generation: generation,
        active_workspace_switch: Some(generation),
        workspace_switch_state: record.workspace_switch_state,
    }
}

/// The record of switches after `command`.
pub open spec fn record_after(
    record: WorkspaceSwitchManager,
    command: LayoutCommand,
) -> WorkspaceSwitchManager {
    if command.switches() {
        WorkspaceSwitchManager {
            workspace_switch_state: WorkspaceSwitchState::Active,
            ..record_of_new_switch(record)
        }
    } else {
        WorkspaceSwitchManager {
            workspace_switch_state: WorkspaceSwitchState::Inactive,
            ..record
        }
    }
}

/// The space in which `command` switches workspaces: none for a command that
/// switches none.
pub open spec fn switch_space(reactor: Reactor, command: LayoutCommand) -> Option<SpaceId> {
    if command.switches() {
        reactor.space_manager.command_space
    } else {
        None
    }
}

/// What comes before the layout engine is called: for a switch, floating positions
/// are stored and the switch is given its number.
pub open spec fn opening_plan(reactor: Reactor, command: LayoutCommand) -> Seq<EffectView> {
    if command.switches() {
        let stored = match reactor.space_manager.command_space {
            Some(space) => seq![EffectView::StoreFloatingPositions(space)],
            None => Seq::empty(),
        };
        stored.push(
            EffectView::RecordSwitch(record_of_new_switch(reactor.workspace_switch_manager)),
        )
    } else {
        Seq::empty()
    }
}

/// The call of the layout engine that `command` makes, if it makes one.
///
/// The command that creates a workspace makes none: it is not a switch, and only
/// a switch has a space to be carried out in.
pub open spec fn engine_call(reactor: Reactor, command: LayoutCommand) -> Option<EffectView> {
    let space = reactor.space_manager.command_space;
    match command {
        LayoutCommand::CreateWorkspace
        | LayoutCommand::MoveWorkspaceToMonitor { .. }
        | LayoutCommand::MoveNodeToMonitor { .. } => None,
        LayoutCommand::Tree(_) => {
            let visible = screens::visible_spaces_of(reactor.space_manager.screens@);
            Some(
                EffectView::EngineCommand(
                    EngineRequestView {
                        space,
                        visible_spaces: visible,
                        visible_space_centers: screens::centers_of(visible),
                        command,
                    },
                ),
            )
        },
        _ => match space {
            Some(space) => Some(EffectView::VirtualWorkspaceCommand { space, command }),
            None => None,
        },
    }
}

/// What the command itself calls for: a call of the layout engine, or a move to
/// another monitor.
pub open spec fn core_plan(reactor: Reactor, command: LayoutCommand) -> Seq<EffectView> {
    match command {
        LayoutCommand::MoveWorkspaceToMonitor { direction, wrap_around } => {
            workspace_to_monitor_plan(reactor, direction, wrap_around)
        },
        LayoutCommand::MoveNodeToMonitor { direction, wrap_around } => {
            node_to_monitor_plan(reactor, direction, wrap_around)
        },
        _ => match engine_call(reactor, command) {
            Some(call) => seq![call],
            None => Seq::empty(),
        },
    }
}

/// What the response to `command` is.
pub open spec fn response_to(reactor: Reactor, command: LayoutCommand) -> ResponseSource {
    if engine_call(reactor, command) is Some {
        ResponseSource::EngineReply
    } else {
        ResponseSource::Empty
    }
}

/// What a layout command calls for.
pub open spec fn layout_plan(reactor: Reactor, command: LayoutCommand) -> Seq<EffectView> {
    opening_plan(reactor, command) + core_plan(reactor, command) + seq![
        EffectView::RecordSwitch(record_after(reactor.workspace_switch_manager, command)),
        EffectView::LayoutResponse {
            response: response_to(reactor, command),
            workspace_space: switch_space(reactor, command),
        },
    ]
}

// A new configuration.

/// What a new configuration calls for. It is in force before anything else happens.
pub open spec fn config_plan(reactor: Reactor, config: Config) -> Seq<EffectView> {
    seq![
        EffectView::InstallConfig(config),
        EffectView::SetLayoutSettings(config.settings.layout),
        EffectView::UpdateVirtualWorkspaceSettings(config.virtual_workspaces),
        EffectView::UpdateDragConfig(config.settings.window_snapping),
    ] + when(
        reactor.communication_manager.stack_line_tx,
        EffectView::StackLineConfigUpdated(config),
    ) + when(reactor.menu_manager.menu_tx, EffectView::MenuConfigUpdated(config)) + seq![
        EffectView::UpdateLayout(false, true),
    ] + when(
        reactor.communication_manager.wm_sender && reactor.config_manager.config.keys@
            != config.keys@,
        EffectView::WmConfigUpdated(config),
    )
}

// Focus.

/// What a command to focus a window calls for. A window that is kept is focused in
/// the space that fits it, if one does, and raised through its app, if that is
/// known. Of any other, the window server is asked to give it the keyboard, if its
/// number there is given.
pub open spec fn focus_window_plan(
    reactor: Reactor,
    window: WindowId,
    server_id: Option<WindowServerId>,
) -> Seq<EffectView> {
    match reactor.window_manager.state_of(window) {
        Some(state) => {
            let focused = match state.best_space {
                Some(space) => seq![EffectView::WindowFocused(space, window)],
                None => Seq::empty(),
            };
            focused.push(EffectView::Raise(raise_request_for(reactor, window)))
        },
        None => match server_id {
            Some(id) => seq![EffectView::MakeKeyWindow(window.pid, id)],
            None => Seq::empty(),
        },
    }
}

/// The request that focuses `window` and raises no other.
pub open spec fn raise_request_for(reactor: Reactor, window: WindowId) -> RaiseRequestView {
    RaiseRequestView {
        raise_windows: Seq::empty(),
        focus_window: Some((window, None)),
        app_handles: match screens::lookup(reactor.app_manager.apps@, window.pid) {
            Some(handle) => Map::<i32, AppHandle>::empty().insert(window.pid, handle),
            None => Map::empty(),
        },
    }
}

/// The window to focus on `space`: the one that had focus last; failing that, the
/// first of the active workspace.
pub open spec fn window_to_focus(reactor: Reactor, space: SpaceId) -> Option<WindowId> {
    match screens::lookup(reactor.window_manager.last_focused@, space.raw) {
        Some(window) => Some(window),
        None => if reactor.layout_engine.active_on(space).len() > 0 {
            Some(reactor.layout_engine.active_on(space)[0])
        } else {
            None
        },
    }
}

/// A window of the space that `screen` shows is focused, if there is one.
pub open spec fn focus_screen_plan(reactor: Reactor, screen: Screen) -> Seq<EffectView> {
    match screen.space {
        Some(space) => match window_to_focus(reactor, space) {
            Some(window) => seq![EffectView::WindowFocused(space, window)],
            None => Seq::empty(),
        },
        None => Seq::empty(),
    }
}

/// The screen that `selector` names.
pub open spec fn selected_screen(manager: SpaceManager, selector: DisplaySelector) -> Option<
    Screen,
> {
    match selector {
        DisplaySelector::Index(i) => if i < manager.screens@.len() {
            Some(manager.screens@[i as int])
        } else {
            None
        },
        DisplaySelector::Uuid(uuid) => match screens::first_where(manager.screens@, screens::has_uuid(uuid@)) {
            Some(i) => Some(manager.screens@[i]),
            None => None,
        },
    }
}

/// The pointer goes to the middle of the screen that `selector` names, and a window
/// there is focused.
pub open spec fn move_mouse_plan(reactor: Reactor, selector: DisplaySelector) -> Seq<
    EffectView,
> {
    match selected_screen(reactor.space_manager, selector) {
        Some(screen) => warp_plan(reactor, screen.center) + focus_screen_plan(reactor, screen),
        None => Seq::empty(),
    }
}

/// A window of `screen` is focused; if there is none, the pointer goes to its
/// middle.
pub open spec fn focus_display_plan(reactor: Reactor, screen: Option<Screen>) -> Seq<
    EffectView,
> {
    match screen {
        Some(screen) => {
            let focus = focus_screen_plan(reactor, screen);
            if focus.len() > 0 {
                focus
            } else {
                warp_plan(reactor, screen.center)
            }
        },
        None => Seq::empty(),
    }
}

// The rest.

/// The window that a command to close one means: the one with the window server's
/// number given, if it is known; failing that, the main window.
pub open spec fn window_to_close(
    manager: WindowManager,
    server_id: Option<WindowServerId>,
) -> Option<WindowId> {
    let named = match server_id {
        Some(id) => screens::lookup(manager.window_ids@, id.raw),
        None => None,
    };
    match named {
        Some(window) => Some(window),
        None => manager.main_window,
    }
}

/// The window meant is asked to close, if there is one.
pub open spec fn close_window_plan(
    reactor: Reactor,
    server_id: Option<WindowServerId>,
) -> Seq<EffectView> {
    match window_to_close(reactor.window_manager, server_id) {
        Some(window) => seq![EffectView::CloseWindow(window)],
        None => Seq::empty(),
    }
}

/// The tree of every space on show is written to the log.
pub open spec fn debug_plan(reactor: Reactor) -> Seq<EffectView> {
    screens::visible_spaces_of(reactor.space_manager.screens@).map_values(
        |visible: (SpaceId, Point)| EffectView::DebugTree(visible.0, "", true),
    )
}

/// The controller is asked for `command`, if it is there.
pub open spec fn wm_plan(reactor: Reactor, command: WmCmd) -> Seq<EffectView> {
    when(reactor.communication_manager.wm_sender, EffectView::Wm(command))
}

/// The controller is asked for mission control with all windows, if it is there.
pub open spec fn show_all_plan(reactor: Reactor) -> Seq<EffectView> {
    wm_plan(reactor, WmCmd::ShowMissionControlAll)
}

/// The controller is asked for mission control with the windows of the current
/// workspace, if it is there.
pub open spec fn show_current_plan(reactor: Reactor) -> Seq<EffectView> {
    wm_plan(reactor, WmCmd::ShowMissionControlCurrent)
}

/// The controller is asked for mission control over everything, as for showing it;
/// without a controller, mission control is noted as not shown.
pub open spec fn dismiss_plan(reactor: Reactor) -> Seq<EffectView> {
    if reactor.communication_manager.wm_sender {
        seq![EffectView::Wm(WmCmd::ShowMissionControlAll)]
    } else {
        seq![EffectView::SetMissionControlActive(false)]
    }
}

/// The command on the metrics is handed on.
pub open spec fn metrics_plan(command: MetricsCommand) -> Seq<EffectView> {
    seq![EffectView::Metrics(command)]
}

/// The window server switches to the space in `direction`.
pub open spec fn switch_space_plan(direction: Direction) -> Seq<EffectView> {
    seq![EffectView::SwitchSpace(direction)]
}

/// The state is printed as a line of its own, if it could be serialized.
pub open spec fn serialize_plan(serialized: Result<String, String>) -> Seq<EffectView> {
    match serialized {
        Ok(state) => seq![EffectView::Print { text: state, end: '\n' }],
        Err(_) => Seq::empty(),
    }
}

/// The process ends, with a code that tells whether the layout was saved.
pub open spec fn save_and_exit_plan(saved: Result<(), String>) -> Seq<EffectView> {
    seq![EffectView::Exit(exit_code(saved is Ok))]
}

/// The code with which the process ends after the layout was to be saved.
pub open spec fn exit_code(saved: bool) -> i32 {
    if saved {
        0
    } else {
        3
    }
}

} // verus!
