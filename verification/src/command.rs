//! The handlers of commands.

use std::collections::HashMap;

use vstd::prelude::*;

use crate::effects::{
    Config, Effect, EffectView, EngineRequest, LayoutCommand, MetricsCommand, RaiseRequest,
    ResponseSource, WmCmd, WorkspaceSwitchState,
};
use crate::geometry;
use crate::geometry::{Direction, MonitorDirection, Point};
use crate::plan;
use crate::plan::{MonitorMove, MoveRefusal, MoveReport};
use crate::reactor::Reactor;
use crate::screens;
use crate::screens::{visible_space_centers, DisplaySelector, Screen};
use crate::windows::{AppHandle, MovableWindow, WindowId, WindowServerId};

verus! {

/// The handlers of commands. Each appends what its command calls for to the
/// effects of the reactor, and changes nothing else unless it says so.
pub struct CommandEventHandler;

impl CommandEventHandler {
    /// The screen in `direction` from `current_screen`: the neighbour that focus
    /// moves to; failing that, with `wrap_around`, the one at the opposite end.
    pub fn find_adjacent_screen<'a>(
        reactor: &'a Reactor,
        current_screen: &Screen,
        direction: Direction,
        wrap_around: bool,
    ) -> (res: Option<&'a Screen>)
        ensures
            res == match plan::adjacent_screen(
                reactor.space_manager,
                *current_screen,
                direction,
                wrap_around,
            ) {
                Some(screen) => Some(&screen),
                None => None,
            },
            wrap_around && reactor.space_manager.focus_neighbours.towards(direction) is None
                ==> forall|j: int|
                0 <= j < reactor.space_manager.screens@.len() && plan::others_towards(
                    current_screen.screen_id,
                    current_screen.center,
                    geometry::opposite_of(direction),
                )(#[trigger] reactor.space_manager.screens@[j]) ==> {
                    &&& res matches Some(end)
                    &&& end.screen_id != current_screen.screen_id
                    &&& geometry::lies_towards(
                        geometry::opposite_of(direction),
                        current_screen.center,
                        end.center,
                    )
                    &&& !geometry::lies_towards(
                        geometry::opposite_of(direction),
                        end.center,
                        reactor.space_manager.screens@[j].center,
                    )
                },
    {
        if let Some(screen) = reactor.space_manager.screen_for_focus_direction(direction) {
            return Some(screen);
        }
        if !wrap_around {
            return None;
        }
        let list: &Vec<Screen> = &reactor.space_manager.screens;
        let opposite_dir = direction.opposite();
        let origin = current_screen.center;
        let id: u32 = current_screen.screen_id;
        let ghost behind = plan::others_towards(id, origin, opposite_dir);
        let ghost other = screens::lacks_id(id);
        let mut furthest: Option<usize> = None;
        let mut i: usize = 0;
        assert(list@.take(0).len() == 0);
        while i < list.len()
            invariant
                i <= list.len(),
                behind == plan::others_towards(id, origin, opposite_dir),
                other == screens::lacks_id(id),
                match screens::furthest_where(list@.take(i as int), behind, opposite_dir) {
                    Some(k) => furthest matches Some(f) && f == k && f < i,
                    None => match screens::first_where(list@.take(i as int), other) {
                        Some(k) => furthest matches Some(f) && f == k && f < i,
                        None => furthest is None,
                    },
                },
            decreases list.len() - i,
        {
            let ghost seen = list@.take(i as int);
            proof {
                assert(list@.take(i + 1).drop_last() =~= seen);
                screens::lemma_furthest_where(seen, behind, opposite_dir);
                screens::lemma_first_where(seen, other);
            }
            if list[i].screen_id != id {
                let center = list[i].center;
                let is_further = match furthest {
                    Some(k) => opposite_dir.is_towards(origin, center)
                        && !opposite_dir.is_towards(center, list[k].center),
                    None => true,
                };
                if is_further {
                    furthest = Some(i);
                }
            }
            i += 1;
        }
        proof {
            assert(list@.take(i as int) =~= list@);
            screens::lemma_furthest_where(list@, behind, opposite_dir);
        }
        match furthest {
            Some(k) => Some(&list[k]),
            None => None,
        }
    }

    /// The screen listed behind `current_screen`, starting over only with
    /// `wrap_around`.
    pub fn find_next_screen<'a>(
        reactor: &'a Reactor,
        current_screen: &Screen,
        wrap_around: bool,
    ) -> (res: Option<&'a Screen>)
        ensures
            res == match plan::next_screen(
                reactor.space_manager.screens@,
                *current_screen,
                wrap_around,
            ) {
                Some(screen) => Some(&screen),
                None => None,
            },
    {
        let list: &Vec<Screen> = &reactor.space_manager.screens;
        if list.len() <= 1 {
            return None;
        }
        let current_idx: usize = match reactor.space_manager.position_by_id(
            current_screen.screen_id,
        ) {
            Some(i) => i,
            None => {
                return None;
            },
        };
        proof {
            screens::lemma_first_where(list@, screens::has_id(current_screen.screen_id));
            if current_idx + 1 < list.len() {
                vstd::arithmetic::div_mod::lemma_small_mod(
                    (current_idx + 1) as nat,
                    list.len() as nat,
                );
            } else {
                vstd::arithmetic::div_mod::lemma_mod_self_0(list.len() as int);
            }
        }
        let next_idx: usize = (current_idx + 1) % list.len();
        if next_idx == current_idx {
            return None;
        }
        if !wrap_around && next_idx == 0 && current_idx > 0 {
            return None;
        }
        Some(&list[next_idx])
    }

    /// The move to another monitor's space that a command to `direction` makes, or why
    /// it makes none.
    pub fn find_monitor_move(
        reactor: &Reactor,
        direction: MonitorDirection,
        wrap_around: bool,
    ) -> (res: Result<MonitorMove, MoveRefusal>)
        ensures
            res == plan::monitor_move_of(reactor.space_manager, direction, wrap_around),
    {
        let current_space = match reactor.space_manager.command_space {
            Some(space) => space,
            None => {
                return Err(MoveRefusal::NoCurrentSpace);
            },
        };
        let current_screen = match reactor.space_manager.screen_by_space(current_space) {
            Some(screen) => screen,
            None => {
                return Err(MoveRefusal::NoCurrentScreen);
            },
        };
        let target_screen = match direction {
            MonitorDirection::Left => {
                Self::find_adjacent_screen(reactor, current_screen, Direction::Left, wrap_around)
            },
            MonitorDirection::Right => {
                Self::find_adjacent_screen(reactor, current_screen, Direction::Right, wrap_around)
            },
            MonitorDirection::Next => {
                Self::find_next_screen(reactor, current_screen, wrap_around)
            },
        };
        let target_screen = match target_screen {
            Some(screen) => screen,
            None => {
                return Err(MoveRefusal::NoTargetMonitor);
            },
        };
        match reactor.space_manager.space_for_screen(target_screen) {
            Some(target_space) => if target_space == current_space {
                Err(MoveRefusal::AlreadyThere)
            } else {
                Ok(
                    MonitorMove {
                        from: current_space,
                        to: target_space,
                        center: target_screen.center,
                    },
                )
            },
            None => Err(MoveRefusal::NoTargetSpace),
        }
    }

    /// The main window and the move that a command on it makes, or why it makes none.
    fn find_node_move(
        reactor: &Reactor,
        direction: MonitorDirection,
        wrap_around: bool,
    ) -> (res: Result<(WindowId, MonitorMove), MoveRefusal>)
        ensures
            res == plan::node_move_of(*reactor, direction, wrap_around),
    {
        match reactor.window_manager.main_window {
            Some(window) => match Self::find_monitor_move(reactor, direction, wrap_around) {
                Ok(route) => Ok((window, route)),
                Err(reason) => Err(reason),
            },
            None => Err(MoveRefusal::NoWindow),
        }
    }

    /// The move that a command on the active workspace makes, with the windows of that
    /// workspace, or why it makes none.
    fn find_workspace_move(
        reactor: &Reactor,
        direction: MonitorDirection,
        wrap_around: bool,
    ) -> (res: Result<(Vec<WindowId>, MonitorMove), MoveRefusal>)
        ensures
            match plan::workspace_move_of(*reactor, direction, wrap_around) {
                Ok(route) => res matches Ok(found) && found.1 == route && found.0@
                    == reactor.layout_engine.active_on(route.from),
                Err(reason) => res matches Err(found) && found == reason,
            },
    {
        match Self::find_monitor_move(reactor, direction, wrap_around) {
            Ok(route) => {
                let windows = reactor.layout_engine.windows_in_active_workspace(route.from);
                if windows.len() == 0 {
                    Err(MoveRefusal::NothingToMove)
                } else {
                    Ok((windows, route))
                }
            },
            Err(reason) => Err(reason),
        }
    }

    /// What comes of `cmd`, if it is one to move to another monitor: what is moved, from
    /// where and where to, or why nothing is.
    pub fn report_move(reactor: &Reactor, cmd: &LayoutCommand) -> (res: Option<MoveReport>)
        ensures
            res == plan::move_report_of(*reactor, *cmd),
    {
        match cmd {
            LayoutCommand::MoveWorkspaceToMonitor { direction, wrap_around } => {
                match Self::find_workspace_move(reactor, *direction, *wrap_around) {
                    Ok((windows, route)) => Some(
                        MoveReport::Workspace { route, windows: windows.len() },
                    ),
                    Err(reason) => Some(MoveReport::Refused(reason)),
                }
            },
            LayoutCommand::MoveNodeToMonitor { direction, wrap_around } => {
                match Self::find_node_move(reactor, *direction, *wrap_around) {
                    Ok((window, route)) => Some(MoveReport::Window { route, window }),
                    Err(reason) => Some(MoveReport::Refused(reason)),
                }
            },
            _ => None,
        }
    }

    /// `window` with the window server's number for it, if it is kept and has one.
    fn movable(reactor: &Reactor, window: WindowId) -> (res: Option<MovableWindow>)
        ensures
            res == plan::movable_of(reactor.window_manager, window),
    {
        match reactor.window_manager.get(window) {
            Some(state) => match state.window_server_id {
                Some(server_id) => Some(MovableWindow { window, server_id }),
                None => None,
            },
            None => None,
        }
    }

    /// The pointer goes to `point`, if the event tap is there.
    fn warp(reactor: &mut Reactor, point: Point)
        ensures
            final(reactor).same_but_effects(*old(reactor)),
            final(reactor).plan() == old(reactor).plan() + plan::warp_plan(*old(reactor), point),
    {
        if reactor.communication_manager.event_tap_tx {
            reactor.call_for(Effect::Warp(point));
        }
        assert(reactor.plan() =~= old(reactor).plan() + plan::warp_plan(*old(reactor), point));
    }

    /// Moves the windows of the active workspace to another monitor.
    pub fn handle_move_workspace_to_monitor(
        reactor: &mut Reactor,
        direction: MonitorDirection,
        wrap_around: bool,
    )
        ensures
            final(reactor).same_but_effects(*old(reactor)),
            final(reactor).plan() == old(reactor).plan() + plan::workspace_to_monitor_plan(
                *old(reactor),
                direction,
                wrap_around,
            ),
    {
        let (windows, route) = match Self::find_workspace_move(
            reactor,
            direction,
            wrap_around,
        ) {
            Ok(found) => found,
            Err(_) => {
                assert(reactor.plan() =~= old(reactor).plan() + Seq::empty());
                return;
            },
        };
        let mut i: usize = 0;
        assert(reactor.plan() =~= old(reactor).plan() + plan::move_windows_plan(
            plan::movable_windows_of(reactor.window_manager, windows@.take(0)),
            route.to,
        ));
        while i < windows.len()
            invariant
                i <= windows.len(),
                reactor.same_but_effects(*old(reactor)),
                reactor.plan() == old(reactor).plan() + plan::move_windows_plan(
                    plan::movable_windows_of(old(reactor).window_manager, windows@.take(i as int)),
                    route.to,
                ),
            decreases windows.len() - i,
        {
            assert(windows@.take(i + 1).drop_last() =~= windows@.take(i as int));
            if let Some(movable) = Self::movable(reactor, windows[i]) {
                reactor.call_for(Effect::MoveWindowToSpace(movable, route.to.get()));
            }
            assert(reactor.plan() =~= old(reactor).plan() + plan::move_windows_plan(
                plan::movable_windows_of(old(reactor).window_manager, windows@.take(i + 1)),
                route.to,
            ));
            i += 1;
        }
        assert(windows@.take(i as int) =~= windows@);
        Self::warp(reactor, route.center);
        assert(reactor.plan() =~= old(reactor).plan() + plan::workspace_to_monitor_plan(
            *old(reactor),
            direction,
            wrap_around,
        ));
    }

    /// Moves the main window to another monitor.
    pub fn handle_move_node_to_monitor(
        reactor: &mut Reactor,
        direction: MonitorDirection,
        wrap_around: bool,
    )
        ensures
            final(reactor).same_but_effects(*old(reactor)),
            final(reactor).plan() == old(reactor).plan() + plan::node_to_monitor_plan(
                *old(reactor),
                direction,
                wrap_around,
            ),
    {
        if let Ok((window, route)) = Self::find_node_move(reactor, direction, wrap_around) {
            if let Some(movable) = Self::movable(reactor, window) {
                reactor.call_for(Effect::MoveWindowToSpace(movable, route.to.get()));
            }
        }
        assert(reactor.plan() =~= old(reactor).plan() + plan::node_to_monitor_plan(
            *old(reactor),
            direction,
            wrap_around,
        ));
    }

    /// Handles a command on the layout. The record of workspace switches changes as
    /// `plan::record_after` says.
    pub fn handle_command_layout(reactor: &mut Reactor, cmd: LayoutCommand)
        ensures
            final(reactor).observes_same(*old(reactor)),
            final(reactor).config_manager == old(reactor).config_manager,
            final(reactor).workspace_switch_manager == plan::record_after(
                old(reactor).workspace_switch_manager,
                cmd,
            ),
            final(reactor).plan() == old(reactor).plan() + plan::layout_plan(*old(reactor), cmd),
    {
        let visible_spaces = reactor.space_manager.visible_spaces();
        let visible_space_centers = visible_space_centers(&visible_spaces);

        let is_workspace_switch = cmd.is_workspace_switch();
        let workspace_space = if is_workspace_switch {
            let space = reactor.space_manager.command_space;
            if let Some(space) = space {
                reactor.call_for(Effect::StoreFloatingPositions(space));
            }
            space
        } else {
            None
        };
        if is_workspace_switch {
            reactor.workspace_switch_manager.workspace_switch_generation =
            reactor.workspace_switch_manager.workspace_switch_generation.wrapping_add(1);
            reactor.workspace_switch_manager.active_workspace_switch =
            Some(reactor.workspace_switch_manager.workspace_switch_generation);
            reactor.call_for(Effect::RecordSwitch(reactor.workspace_switch_manager));
        }
        assert(reactor.plan() =~= old(reactor).plan() + plan::opening_plan(*old(reactor), cmd));
        let ghost opened = *reactor;
        let ghost command = cmd;

        let response = match &cmd {
            LayoutCommand::NextWorkspace(_)
            | LayoutCommand::PrevWorkspace(_)
            | LayoutCommand::SwitchToWorkspace(_)
            | LayoutCommand::CreateWorkspace
            | LayoutCommand::SwitchToLastWorkspace => {
                if let Some(space) = workspace_space {
                    reactor.call_for(Effect::VirtualWorkspaceCommand { space, command: cmd });
                    ResponseSource::EngineReply
                } else {
                    ResponseSource::Empty
                }
            },
            LayoutCommand::MoveWindowToWorkspace { .. } => {
                if let Some(space) = reactor.space_manager.command_space {
                    reactor.call_for(Effect::VirtualWorkspaceCommand { space, command: cmd });
                    ResponseSource::EngineReply
                } else {
                    ResponseSource::Empty
                }
            },
            LayoutCommand::MoveWorkspaceToMonitor { direction, wrap_around } => {
                Self::handle_move_workspace_to_monitor(reactor, *direction, *wrap_around);
                ResponseSource::Empty
            },
            LayoutCommand::MoveNodeToMonitor { direction, wrap_around } => {
                Self::handle_move_node_to_monitor(reactor, *direction, *wrap_around);
                ResponseSource::Empty
            },
            LayoutCommand::Tree(_) => {
                let request = EngineRequest {
                    space: reactor.space_manager.command_space,
                    visible_spaces,
                    visible_space_centers,
                    command: cmd,
                };
                reactor.call_for(Effect::EngineCommand(request));
                ResponseSource::EngineReply
            },
        };
        assert(reactor.plan() =~= opened.plan() + plan::core_plan(*old(reactor), command));
        assert(response == plan::response_to(*old(reactor), command));

        reactor.workspace_switch_manager.workspace_switch_state = if is_workspace_switch {
            WorkspaceSwitchState::Active
        } else {
            WorkspaceSwitchState::Inactive
        };
        reactor.call_for(Effect::RecordSwitch(reactor.workspace_switch_manager));
        reactor.call_for(Effect::LayoutResponse { response, workspace_space });
        assert(reactor.plan() =~= old(reactor).plan() + plan::layout_plan(*old(reactor), command));
    }

    /// Handles a command on the metrics that the log keeps.
    pub fn handle_command_metrics(reactor: &mut Reactor, cmd: MetricsCommand)
        ensures
            final(reactor).same_but_effects(*old(reactor)),
            final(reactor).plan() == old(reactor).plan().push(EffectView::Metrics(cmd)),
            final(reactor).plan() == old(reactor).plan() + plan::metrics_plan(cmd),
    {
        reactor.call_for(Effect::Metrics(cmd));
    }

    /// Takes over a new configuration. It is in force before anyone is told of it.
    pub fn handle_config_updated(reactor: &mut Reactor, new_cfg: Config)
        ensures
            final(reactor).observes_same(*old(reactor)),
            final(reactor).workspace_switch_manager == old(reactor).workspace_switch_manager,
            final(reactor).config_manager.config == new_cfg,
            final(reactor).plan() == old(reactor).plan() + plan::config_plan(
                *old(reactor),
                new_cfg,
            ),
    {
        let old_keys = reactor.config_manager.config.keys.clone();

        reactor.config_manager.config = new_cfg;
        reactor.call_for(Effect::InstallConfig(reactor.config_manager.config.clone()));
        reactor.call_for(
            Effect::SetLayoutSettings(reactor.config_manager.config.settings.layout.clone()),
        );
        reactor.call_for(
            Effect::UpdateVirtualWorkspaceSettings(
                reactor.config_manager.config.virtual_workspaces.clone(),
            ),
        );
        reactor.call_for(
            Effect::UpdateDragConfig(
                reactor.config_manager.config.settings.window_snapping.clone(),
            ),
        );
        if reactor.communication_manager.stack_line_tx {
            reactor.call_for(
                Effect::StackLineConfigUpdated(reactor.config_manager.config.clone()),
            );
        }
        if reactor.menu_manager.menu_tx {
            reactor.call_for(Effect::MenuConfigUpdated(reactor.config_manager.config.clone()));
        }
        reactor.call_for(Effect::UpdateLayout(false, true));
        if !old_keys.eq(&reactor.config_manager.config.keys) {
            if reactor.communication_manager.wm_sender {
                reactor.call_for(Effect::WmConfigUpdated(reactor.config_manager.config.clone()));
            }
        }
        assert(reactor.plan() =~= old(reactor).plan() + plan::config_plan(
            *old(reactor),
            new_cfg,
        ));
    }

    /// Writes the trees of the spaces on show to the log.
    pub fn handle_command_reactor_debug(reactor: &mut Reactor)
        ensures
            final(reactor).same_but_effects(*old(reactor)),
            final(reactor).plan() == old(reactor).plan() + plan::debug_plan(*old(reactor)),
    {
        let visible = reactor.space_manager.visible_spaces();
        let ghost trees = plan::debug_plan(*reactor);
        let mut i: usize = 0;
        assert(reactor.plan() =~= old(reactor).plan() + trees.take(0));
        while i < visible.len()
            invariant
                i <= visible.len(),
                visible@ == screens::visible_spaces_of(old(reactor).space_manager.screens@),
                trees == plan::debug_plan(*old(reactor)),
                reactor.same_but_effects(*old(reactor)),
                reactor.plan() == old(reactor).plan() + trees.take(i as int),
            decreases visible.len() - i,
        {
            reactor.call_for(Effect::DebugTree(visible[i].0, "", true));
            assert(reactor.plan() =~= old(reactor).plan() + trees.take(i + 1));
            i += 1;
        }
        assert(trees.take(i as int) =~= trees);
    }

    /// Prints the state of the reactor, given as it was serialized, as a line of its
    /// own. Nothing is printed where that failed.
    pub fn handle_command_reactor_serialize(
        reactor: &mut Reactor,
        serialized: Result<String, String>,
    )
        ensures
            final(reactor).same_but_effects(*old(reactor)),
            final(reactor).plan() == match serialized {
                Ok(state) => old(reactor).plan().push(
                    EffectView::Print { text: state, end: '\n' },
                ),
                Err(_) => old(reactor).plan(),
            },
            final(reactor).plan() == old(reactor).plan() + plan::serialize_plan(serialized),
    {
        if let Ok(state) = serialized {
            reactor.call_for(Effect::Print { text: state, end: '\n' });
        }
    }

    /// Ends the process once the layout was to be saved, with a code that tells
    /// whether it was.
    pub fn handle_command_reactor_save_and_exit(
        reactor: &mut Reactor,
        saved: Result<(), String>,
    )
        ensures
            final(reactor).same_but_effects(*old(reactor)),
            final(reactor).plan() == old(reactor).plan().push(
                EffectView::Exit(plan::exit_code(saved is Ok)),
            ),
            final(reactor).plan() == old(reactor).plan() + plan::save_and_exit_plan(saved),
    {
        match saved {
            Ok(()) => reactor.call_for(Effect::Exit(0)),
            Err(_) => reactor.call_for(Effect::Exit(3)),
        }
    }

    /// Switches to the space in direction `dir`.
    pub fn handle_command_reactor_switch_space(reactor: &mut Reactor, dir: Direction)
        ensures
            final(reactor).same_but_effects(*old(reactor)),
            final(reactor).plan() == old(reactor).plan().push(EffectView::SwitchSpace(dir)),
            final(reactor).plan() == old(reactor).plan() + plan::switch_space_plan(dir),
    {
        reactor.call_for(Effect::SwitchSpace(dir));
    }

    /// Focuses a window.
    pub fn handle_command_reactor_focus_window(
        reactor: &mut Reactor,
        window_id: WindowId,
        window_server_id: Option<WindowServerId>,
    )
        ensures
            final(reactor).same_but_effects(*old(reactor)),
            final(reactor).plan() == old(reactor).plan() + plan::focus_window_plan(
                *old(reactor),
                window_id,
                window_server_id,
            ),
    {
        if let Some(state) = reactor.window_manager.get(window_id) {
            if let Some(space) = state.best_space {
                reactor.call_for(Effect::WindowFocused(space, window_id));
            }
            let mut app_handles: HashMap<i32, AppHandle> = HashMap::new();
            if let Some(handle) = reactor.app_manager.apps.get(&window_id.pid) {
                app_handles.insert(window_id.pid, *handle);
            }
            let request = RaiseRequest {
                raise_windows: Vec::new(),
                focus_window: Some((window_id, None)),
                app_handles,
            };
            assert(request@ == plan::raise_request_for(*old(reactor), window_id)) by {
                assert(request@.app_handles =~= plan::raise_request_for(
                    *old(reactor),
                    window_id,
                ).app_handles);
                assert(request@.raise_windows =~= Seq::empty());
            }
            reactor.call_for(Effect::Raise(request));
        } else if let Some(wsid) = window_server_id {
            reactor.call_for(Effect::MakeKeyWindow(window_id.pid, wsid));
        }
        assert(reactor.plan() =~= old(reactor).plan() + plan::focus_window_plan(
            *old(reactor),
            window_id,
            window_server_id,
        ));
    }

    /// Asks the controller for `command`, if it is there.
    fn ask_wm(reactor: &mut Reactor, command: WmCmd)
        ensures
            final(reactor).same_but_effects(*old(reactor)),
            final(reactor).plan() == old(reactor).plan() + plan::wm_plan(*old(reactor), command),
    {
        if reactor.communication_manager.wm_sender {
            reactor.call_for(Effect::Wm(command));
        }
        assert(reactor.plan() =~= old(reactor).plan() + plan::wm_plan(*old(reactor), command));
    }

    /// Shows mission control with all windows.
    pub fn handle_command_reactor_show_mission_control_all(reactor: &mut Reactor)
        ensures
            final(reactor).same_but_effects(*old(reactor)),
            final(reactor).plan() == old(reactor).plan() + plan::wm_plan(
                *old(reactor),
                WmCmd::ShowMissionControlAll,
            ),
            final(reactor).plan() == old(reactor).plan() + plan::show_all_plan(*old(reactor)),
    {
        Self::ask_wm(reactor, WmCmd::ShowMissionControlAll);
    }

    /// Shows mission control with the windows of the current workspace.
    pub fn handle_command_reactor_show_mission_control_current(reactor: &mut Reactor)
        ensures
            final(reactor).same_but_effects(*old(reactor)),
            final(reactor).plan() == old(reactor).plan() + plan::wm_plan(
                *old(reactor),
                WmCmd::ShowMissionControlCurrent,
            ),
            final(reactor).plan() == old(reactor).plan() + plan::show_current_plan(*old(reactor)),
    {
        Self::ask_wm(reactor, WmCmd::ShowMissionControlCurrent);
    }

    /// Takes mission control away.
    pub fn handle_command_reactor_dismiss_mission_control(reactor: &mut Reactor)
        ensures
            final(reactor).same_but_effects(*old(reactor)),
            final(reactor).plan() == old(reactor).plan() + plan::dismiss_plan(*old(reactor)),
    {
        if reactor.communication_manager.wm_sender {
            reactor.call_for(Effect::Wm(WmCmd::ShowMissionControlAll));
        } else {
            reactor.call_for(Effect::SetMissionControlActive(false));
        }
        assert(reactor.plan() =~= old(reactor).plan() + plan::dismiss_plan(*old(reactor)));
    }

    /// Focuses a window of the space that `screen` shows. Tells whether there was
    /// one.
    pub fn focus_first_window_on_screen(reactor: &mut Reactor, screen: &Screen) -> (res: bool)
        ensures
            final(reactor).same_but_effects(*old(reactor)),
            final(reactor).plan() == old(reactor).plan() + plan::focus_screen_plan(
                *old(reactor),
                *screen,
            ),
            res == (plan::focus_screen_plan(*old(reactor), *screen).len() > 0),
    {
        if let Some(space) = reactor.space_manager.space_for_screen(screen) {
            let focus_target = match reactor.window_manager.last_focused_window_in_space(space) {
                Some(window) => Some(window),
                None => {
                    let windows = reactor.layout_engine.windows_in_active_workspace(space);
                    if windows.len() > 0 {
                        Some(windows[0])
                    } else {
                        None
                    }
                },
            };
            if let Some(window_id) = focus_target {
                reactor.call_for(Effect::WindowFocused(space, window_id));
                assert(reactor.plan() =~= old(reactor).plan() + plan::focus_screen_plan(
                    *old(reactor),
                    *screen,
                ));
                return true;
            }
        }
        assert(reactor.plan() =~= old(reactor).plan() + plan::focus_screen_plan(
            *old(reactor),
            *screen,
        ));
        false
    }

    /// Moves the pointer to the middle of a display and focuses a window there.
    pub fn handle_command_reactor_move_mouse_to_display(
        reactor: &mut Reactor,
        selector: &DisplaySelector,
    )
        ensures
            final(reactor).same_but_effects(*old(reactor)),
            final(reactor).plan() == old(reactor).plan() + plan::move_mouse_plan(
                *old(reactor),
                *selector,
            ),
    {
        let target_screen = match selector {
            DisplaySelector::Index(idx) => {
                if *idx < reactor.space_manager.screens.len() {
                    Some(reactor.space_manager.screens[*idx].clone())
                } else {
                    None
                }
            },
            DisplaySelector::Uuid(uuid) => match reactor.space_manager.screen_by_uuid(uuid) {
                Some(screen) => Some(screen.clone()),
                None => None,
            },
        };
        if let Some(screen) = target_screen {
            Self::warp(reactor, screen.center);
            let _ = Self::focus_first_window_on_screen(reactor, &screen);
        }
        assert(reactor.plan() =~= old(reactor).plan() + plan::move_mouse_plan(
            *old(reactor),
            *selector,
        ));
    }

    /// Focuses a window of the display that was chosen, if one was; a display without
    /// windows gets the pointer instead.
    pub fn handle_command_reactor_focus_display(reactor: &mut Reactor, screen: Option<Screen>)
        ensures
            final(reactor).same_but_effects(*old(reactor)),
            final(reactor).plan() == old(reactor).plan() + plan::focus_display_plan(
                *old(reactor),
                screen,
            ),
    {
        if let Some(screen) = &screen {
            if !Self::focus_first_window_on_screen(reactor, screen) {
                Self::warp(reactor, screen.center);
            }
        }
        assert(reactor.plan() =~= old(reactor).plan() + plan::focus_display_plan(
            *old(reactor),
            screen,
        ));
    }

    /// Closes a window: the one that the window server knows by the number given;
    /// failing that, the main window.
    pub fn handle_command_reactor_close_window(
        reactor: &mut Reactor,
        window_server_id: Option<WindowServerId>,
    )
        ensures
            final(reactor).same_but_effects(*old(reactor)),
            final(reactor).plan() == old(reactor).plan() + plan::close_window_plan(
                *old(reactor),
                window_server_id,
            ),
    {
        let named = match window_server_id {
            Some(wsid) => reactor.window_manager.by_server_id(wsid),
            None => None,
        };
        let target = match named {
            Some(window) => Some(window),
            None => reactor.window_manager.main_window,
        };
        if let Some(wid) = target {
            reactor.call_for(Effect::CloseWindow(wid));
        }
        assert(reactor.plan() =~= old(reactor).plan() + plan::close_window_plan(
            *old(reactor),
            window_server_id,
        ));
    }
}

} // verus!
