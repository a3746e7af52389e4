use std::collections::HashMap;

use reactor_commands::command::CommandEventHandler;
use reactor_commands::effects::{
    Config, Effect, EngineRequest, LayoutCommand, MetricsCommand, RaiseRequest, ResponseSource,
    Settings, WmCmd, WorkspaceSwitchManager, WorkspaceSwitchState,
};
use reactor_commands::geometry::{Direction, MonitorDirection, Point};
use reactor_commands::plan::{MonitorMove, MoveRefusal, MoveReport};
use reactor_commands::reactor::{CommunicationManager, ConfigManager, MenuManager, Reactor};
use reactor_commands::screens::{
    visible_space_centers, DisplaySelector, FocusNeighbours, Screen, SpaceId, SpaceManager,
};
use reactor_commands::windows::{
    AppHandle, AppManager, LayoutEngine, MovableWindow, WindowId, WindowManager, WindowServerId,
    WindowState,
};

fn space(raw: u64) -> SpaceId {
    SpaceId { raw }
}

fn window(pid: i32, idx: u32) -> WindowId {
    WindowId { pid, idx }
}

fn wsid(raw: u32) -> WindowServerId {
    WindowServerId { raw }
}

fn movable(pid: i32, idx: u32, raw: u32) -> MovableWindow {
    MovableWindow { window: window(pid, idx), server_id: wsid(raw) }
}

fn point(x: i64, y: i64) -> Point {
    Point { x, y }
}

fn screen(screen_id: u32, uuid: &str, center: Point, shown: Option<u64>) -> Screen {
    Screen {
        screen_id,
        display_uuid: uuid.to_string(),
        center,
        space: shown.map(space),
    }
}

fn config(keys: &str) -> Config {
    Config {
        keys: keys.to_string(),
        settings: Settings {
            layout: "gaps = 4".to_string(),
            window_snapping: "snap = 0.3".to_string(),
            other: "animate = true".to_string(),
        },
        virtual_workspaces: "count = 9".to_string(),
        other: "modes = []".to_string(),
    }
}

/// Three screens in a row, numbered from the left, that show the spaces 10, 20 and
/// 30. Commands act on space 20. No neighbour is set.
fn reactor() -> Reactor {
    let screens = vec![
        screen(1, "left", point(-100, 0), Some(10)),
        screen(2, "middle", point(0, 0), Some(20)),
        screen(3, "right", point(100, 0), Some(30)),
    ];
    let mut screens_by_space = HashMap::new();
    for s in &screens {
        screens_by_space.insert(s.space.unwrap().raw, s.clone());
    }
    let mut windows = HashMap::new();
    windows.insert(
        window(7, 1).key(),
        WindowState { window_server_id: Some(wsid(71)), best_space: Some(space(20)) },
    );
    windows.insert(
        window(7, 2).key(),
        WindowState { window_server_id: None, best_space: None },
    );
    windows.insert(
        window(8, 1).key(),
        WindowState { window_server_id: Some(wsid(81)), best_space: Some(space(30)) },
    );
    let mut window_ids = HashMap::new();
    window_ids.insert(71, window(7, 1));
    window_ids.insert(81, window(8, 1));
    let mut last_focused = HashMap::new();
    last_focused.insert(20, window(8, 1));
    let mut active_windows = HashMap::new();
    active_windows.insert(20, vec![window(7, 1), window(7, 2), window(9, 9), window(8, 1)]);
    active_windows.insert(30, vec![window(7, 2), window(7, 1)]);
    let mut apps = HashMap::new();
    apps.insert(7, AppHandle { raw: 700 });
    Reactor {
        space_manager: SpaceManager {
            screens,
            screens_by_space,
            focus_neighbours: FocusNeighbours { left: None, right: None, up: None, down: None },
            command_space: Some(space(20)),
        },
        window_manager: WindowManager {
            windows,
            window_ids,
            main_window: Some(window(7, 1)),
            last_focused,
        },
        app_manager: AppManager { apps },
        layout_engine: LayoutEngine { active_windows },
        workspace_switch_manager: WorkspaceSwitchManager {
            workspace_switch_generation: 4,
            active_workspace_switch: None,
            workspace_switch_state: WorkspaceSwitchState::Inactive,
        },
        config_manager: ConfigManager { config: config("a") },
        communication_manager: CommunicationManager {
            stack_line_tx: true,
            event_tap_tx: true,
            wm_sender: true,
        },
        menu_manager: MenuManager { menu_tx: true },
        effects: Vec::new(),
    }
}

fn record(generation: u64, active: Option<u64>, state: WorkspaceSwitchState) -> Effect {
    Effect::RecordSwitch(WorkspaceSwitchManager {
        workspace_switch_generation: generation,
        active_workspace_switch: active,
        workspace_switch_state: state,
    })
}

fn response(response: ResponseSource, workspace_space: Option<SpaceId>) -> Effect {
    Effect::LayoutResponse { response, workspace_space }
}

#[test]
fn switch_in_a_space_runs_in_order() {
    let mut r = reactor();
    CommandEventHandler::handle_command_layout(
        &mut r,
        LayoutCommand::SwitchToWorkspace("3".to_string()),
    );
    assert_eq!(
        r.effects,
        vec![
            Effect::StoreFloatingPositions(space(20)),
            record(5, Some(5), WorkspaceSwitchState::Inactive),
            Effect::VirtualWorkspaceCommand {
                space: space(20),
                command: LayoutCommand::SwitchToWorkspace("3".to_string()),
            },
            record(5, Some(5), WorkspaceSwitchState::Active),
            response(ResponseSource::EngineReply, Some(space(20))),
        ]
    );
    assert_eq!(r.workspace_switch_manager.workspace_switch_generation, 5);
    assert_eq!(r.workspace_switch_manager.active_workspace_switch, Some(5));
    assert_eq!(
        r.workspace_switch_manager.workspace_switch_state,
        WorkspaceSwitchState::Active
    );
}

#[test]
fn every_switch_command_is_a_switch() {
    for cmd in [
        LayoutCommand::NextWorkspace(String::new()),
        LayoutCommand::PrevWorkspace(String::new()),
        LayoutCommand::SwitchToWorkspace("1".to_string()),
        LayoutCommand::SwitchToLastWorkspace,
    ] {
        assert!(cmd.is_workspace_switch());
    }
    for cmd in [
        LayoutCommand::CreateWorkspace,
        LayoutCommand::MoveWindowToWorkspace { args: "2".to_string() },
        LayoutCommand::MoveNodeToMonitor {
            direction: MonitorDirection::Next,
            wrap_around: true,
        },
        LayoutCommand::Tree("focus left".to_string()),
    ] {
        assert!(!cmd.is_workspace_switch());
    }
}

#[test]
fn switch_without_a_space_is_still_numbered() {
    let mut r = reactor();
    r.space_manager.command_space = None;
    CommandEventHandler::handle_command_layout(&mut r, LayoutCommand::SwitchToLastWorkspace);
    assert_eq!(
        r.effects,
        vec![
            record(5, Some(5), WorkspaceSwitchState::Inactive),
            record(5, Some(5), WorkspaceSwitchState::Active),
            response(ResponseSource::Empty, None),
        ]
    );
}

#[test]
fn switch_numbers_start_over() {
    let mut r = reactor();
    r.workspace_switch_manager.workspace_switch_generation = u64::MAX;
    CommandEventHandler::handle_command_layout(
        &mut r,
        LayoutCommand::NextWorkspace(String::new()),
    );
    assert_eq!(r.workspace_switch_manager.workspace_switch_generation, 0);
    assert_eq!(r.workspace_switch_manager.active_workspace_switch, Some(0));
}

#[test]
fn switches_are_numbered_over_a_run() {
    let mut r = reactor();
    CommandEventHandler::handle_command_layout(
        &mut r,
        LayoutCommand::PrevWorkspace(String::new()),
    );
    CommandEventHandler::handle_command_layout(&mut r, LayoutCommand::Tree("split".to_string()));
    assert_eq!(
        r.workspace_switch_manager.workspace_switch_state,
        WorkspaceSwitchState::Inactive
    );
    CommandEventHandler::handle_command_layout(&mut r, LayoutCommand::SwitchToLastWorkspace);
    assert_eq!(r.workspace_switch_manager.workspace_switch_generation, 6);
    assert_eq!(r.workspace_switch_manager.active_workspace_switch, Some(6));
}

#[test]
fn create_workspace_does_not_reach_the_engine() {
    let mut r = reactor();
    CommandEventHandler::handle_command_layout(&mut r, LayoutCommand::CreateWorkspace);
    assert_eq!(
        r.effects,
        vec![
            record(4, None, WorkspaceSwitchState::Inactive),
            response(ResponseSource::Empty, None),
        ]
    );
}

#[test]
fn move_window_to_workspace_goes_to_the_command_space() {
    let mut r = reactor();
    r.workspace_switch_manager.workspace_switch_state = WorkspaceSwitchState::Active;
    CommandEventHandler::handle_command_layout(
        &mut r,
        LayoutCommand::MoveWindowToWorkspace { args: "2".to_string() },
    );
    assert_eq!(
        r.effects,
        vec![
            Effect::VirtualWorkspaceCommand {
                space: space(20),
                command: LayoutCommand::MoveWindowToWorkspace { args: "2".to_string() },
            },
            record(4, None, WorkspaceSwitchState::Inactive),
            response(ResponseSource::EngineReply, None),
        ]
    );

    let mut r = reactor();
    r.space_manager.command_space = None;
    CommandEventHandler::handle_command_layout(
        &mut r,
        LayoutCommand::MoveWindowToWorkspace { args: "2".to_string() },
    );
    assert_eq!(
        r.effects,
        vec![
            record(4, None, WorkspaceSwitchState::Inactive),
            response(ResponseSource::Empty, None),
        ]
    );
}

#[test]
fn tree_command_carries_the_spaces_on_show() {
    let mut r = reactor();
    r.space_manager.screens[0].space = None;
    r.space_manager.command_space = None;
    CommandEventHandler::handle_command_layout(
        &mut r,
        LayoutCommand::Tree("focus left".to_string()),
    );
    let mut centers = HashMap::new();
    centers.insert(20, point(0, 0));
    centers.insert(30, point(100, 0));
    assert_eq!(
        r.effects,
        vec![
            Effect::EngineCommand(EngineRequest {
                space: None,
                visible_spaces: vec![(space(20), point(0, 0)), (space(30), point(100, 0))],
                visible_space_centers: centers,
                command: LayoutCommand::Tree("focus left".to_string()),
            }),
            record(4, None, WorkspaceSwitchState::Inactive),
            response(ResponseSource::EngineReply, None),
        ]
    );
}

#[test]
fn the_last_center_of_a_space_counts() {
    let centers = visible_space_centers(&vec![
        (space(1), point(1, 1)),
        (space(2), point(2, 2)),
        (space(1), point(3, 3)),
    ]);
    assert_eq!(centers.len(), 2);
    assert_eq!(centers[&1], point(3, 3));
    assert_eq!(centers[&2], point(2, 2));
}

#[test]
fn workspace_moves_to_the_next_monitor() {
    let mut r = reactor();
    CommandEventHandler::handle_command_layout(
        &mut r,
        LayoutCommand::MoveWorkspaceToMonitor {
            direction: MonitorDirection::Next,
            wrap_around: false,
        },
    );
    assert_eq!(
        r.effects,
        vec![
            Effect::MoveWindowToSpace(movable(7, 1, 71), 30),
            Effect::MoveWindowToSpace(movable(8, 1, 81), 30),
            Effect::Warp(point(100, 0)),
            record(4, None, WorkspaceSwitchState::Inactive),
            response(ResponseSource::Empty, None),
        ]
    );
}

#[test]
fn workspace_moves_without_the_event_tap() {
    let mut r = reactor();
    r.communication_manager.event_tap_tx = false;
    CommandEventHandler::handle_move_workspace_to_monitor(&mut r, MonitorDirection::Next, false);
    assert_eq!(
        r.effects,
        vec![
            Effect::MoveWindowToSpace(movable(7, 1, 71), 30),
            Effect::MoveWindowToSpace(movable(8, 1, 81), 30),
        ]
    );
}

#[test]
fn workspace_of_unknown_windows_still_takes_the_pointer() {
    let mut r = reactor();
    r.layout_engine.active_windows.insert(20, vec![window(9, 9)]);
    CommandEventHandler::handle_move_workspace_to_monitor(&mut r, MonitorDirection::Next, false);
    assert_eq!(r.effects, vec![Effect::Warp(point(100, 0))]);
}

#[test]
fn empty_workspace_stays() {
    let mut r = reactor();
    r.layout_engine.active_windows.remove(&20);
    CommandEventHandler::handle_move_workspace_to_monitor(&mut r, MonitorDirection::Next, false);
    assert!(r.effects.is_empty());
    r.layout_engine.active_windows.insert(20, vec![]);
    CommandEventHandler::handle_move_workspace_to_monitor(&mut r, MonitorDirection::Next, false);
    assert!(r.effects.is_empty());
}

#[test]
fn refused_moves_move_nothing() {
    // No space to act on.
    let mut r = reactor();
    r.space_manager.command_space = None;
    assert_eq!(
        CommandEventHandler::find_monitor_move(&r, MonitorDirection::Next, true),
        Err(MoveRefusal::NoCurrentSpace)
    );
    CommandEventHandler::handle_move_workspace_to_monitor(&mut r, MonitorDirection::Next, true);
    CommandEventHandler::handle_move_node_to_monitor(&mut r, MonitorDirection::Next, true);
    assert!(r.effects.is_empty());

    // The space is on no screen.
    let mut r = reactor();
    r.space_manager.screens_by_space.remove(&20);
    assert_eq!(
        CommandEventHandler::find_monitor_move(&r, MonitorDirection::Next, true),
        Err(MoveRefusal::NoCurrentScreen)
    );

    // No monitor that way.
    let r = reactor();
    assert_eq!(
        CommandEventHandler::find_monitor_move(&r, MonitorDirection::Left, false),
        Err(MoveRefusal::NoTargetMonitor)
    );

    // The monitor shows no space.
    let mut r = reactor();
    r.space_manager.screens[2].space = None;
    assert_eq!(
        CommandEventHandler::find_monitor_move(&r, MonitorDirection::Next, false),
        Err(MoveRefusal::NoTargetSpace)
    );

    // The monitor shows the same space.
    let mut r = reactor();
    r.space_manager.screens[2].space = Some(space(20));
    assert_eq!(
        CommandEventHandler::find_monitor_move(&r, MonitorDirection::Next, false),
        Err(MoveRefusal::AlreadyThere)
    );
    CommandEventHandler::handle_command_layout(
        &mut r,
        LayoutCommand::MoveNodeToMonitor {
            direction: MonitorDirection::Next,
            wrap_around: false,
        },
    );
    assert_eq!(
        r.effects,
        vec![
            record(4, None, WorkspaceSwitchState::Inactive),
            response(ResponseSource::Empty, None),
        ]
    );
}

#[test]
fn move_goes_from_the_command_space_to_another() {
    let mut r = reactor();
    assert_eq!(
        CommandEventHandler::find_monitor_move(&r, MonitorDirection::Next, false),
        Ok(MonitorMove { from: space(20), to: space(30), center: point(100, 0) })
    );
    r.space_manager.focus_neighbours.left = Some(screen(1, "left", point(-100, 0), Some(10)));
    assert_eq!(
        CommandEventHandler::find_monitor_move(&r, MonitorDirection::Left, false),
        Ok(MonitorMove { from: space(20), to: space(10), center: point(-100, 0) })
    );
    r.space_manager.focus_neighbours.right = Some(screen(3, "right", point(100, 0), Some(30)));
    assert_eq!(
        CommandEventHandler::find_monitor_move(&r, MonitorDirection::Right, false),
        Ok(MonitorMove { from: space(20), to: space(30), center: point(100, 0) })
    );
}

#[test]
fn moves_are_reported() {
    let workspace = |direction| LayoutCommand::MoveWorkspaceToMonitor {
        direction,
        wrap_around: false,
    };
    let node = |direction| LayoutCommand::MoveNodeToMonitor { direction, wrap_around: false };
    let route = MonitorMove { from: space(20), to: space(30), center: point(100, 0) };
    let refused = |reason| Some(MoveReport::Refused(reason));

    let mut r = reactor();
    assert_eq!(
        CommandEventHandler::report_move(&r, &workspace(MonitorDirection::Next)),
        Some(MoveReport::Workspace { route, windows: 4 })
    );
    assert_eq!(
        CommandEventHandler::report_move(&r, &node(MonitorDirection::Next)),
        Some(MoveReport::Window { route, window: window(7, 1) })
    );
    assert_eq!(
        CommandEventHandler::report_move(&r, &node(MonitorDirection::Left)),
        refused(MoveRefusal::NoTargetMonitor)
    );
    assert_eq!(CommandEventHandler::report_move(&r, &LayoutCommand::CreateWorkspace), None);
    assert!(r.effects.is_empty());

    r.layout_engine.active_windows.insert(20, vec![]);
    assert_eq!(
        CommandEventHandler::report_move(&r, &workspace(MonitorDirection::Next)),
        refused(MoveRefusal::NothingToMove)
    );
    r.window_manager.main_window = None;
    r.space_manager.command_space = None;
    assert_eq!(
        CommandEventHandler::report_move(&r, &node(MonitorDirection::Next)),
        refused(MoveRefusal::NoWindow)
    );
    assert_eq!(
        CommandEventHandler::report_move(&r, &workspace(MonitorDirection::Next)),
        refused(MoveRefusal::NoCurrentSpace)
    );
}

#[test]
fn main_window_moves_alone() {
    let mut r = reactor();
    CommandEventHandler::handle_command_layout(
        &mut r,
        LayoutCommand::MoveNodeToMonitor {
            direction: MonitorDirection::Next,
            wrap_around: false,
        },
    );
    assert_eq!(
        r.effects,
        vec![
            Effect::MoveWindowToSpace(movable(7, 1, 71), 30),
            record(4, None, WorkspaceSwitchState::Inactive),
            response(ResponseSource::Empty, None),
        ]
    );

    for main in [None, Some(window(7, 2)), Some(window(9, 9))] {
        let mut r = reactor();
        r.window_manager.main_window = main;
        CommandEventHandler::handle_move_node_to_monitor(&mut r, MonitorDirection::Next, false);
        assert!(r.effects.is_empty());
    }
}

#[test]
fn next_screen_goes_round_with_wrap() {
    let r = reactor();
    let list = &r.space_manager.screens;
    let next = |s: &Screen, wrap: bool| {
        CommandEventHandler::find_next_screen(&r, s, wrap).map(|s| s.screen_id)
    };
    assert_eq!(next(&list[0], false), Some(2));
    assert_eq!(next(&list[1], false), Some(3));
    assert_eq!(next(&list[2], false), None);
    assert_eq!(next(&list[2], true), Some(1));
    assert_eq!(next(&screen(9, "none", point(0, 0), None), true), None);
}

#[test]
fn a_lone_screen_has_no_next() {
    let mut r = reactor();
    r.space_manager.screens.truncate(1);
    let only = r.space_manager.screens[0].clone();
    assert!(CommandEventHandler::find_next_screen(&r, &only, true).is_none());
    assert!(
        CommandEventHandler::find_adjacent_screen(&r, &only, Direction::Left, true).is_none()
    );
}

#[test]
fn a_neighbour_comes_before_wrap() {
    let mut r = reactor();
    r.space_manager.focus_neighbours.up = Some(screen(3, "right", point(100, 0), Some(30)));
    let current = r.space_manager.screens[1].clone();
    for wrap in [false, true] {
        let found =
            CommandEventHandler::find_adjacent_screen(&r, &current, Direction::Up, wrap);
        assert_eq!(found.map(|s| s.screen_id), Some(3));
    }
}

#[test]
fn wrap_goes_to_the_opposite_end() {
    let r = reactor();
    let list = &r.space_manager.screens;
    let wrap = |s: &Screen, d: Direction| {
        CommandEventHandler::find_adjacent_screen(&r, s, d, true).map(|s| s.screen_id)
    };
    // To the right of the rightmost: both others lie to the left, 1 lies furthest.
    assert_eq!(wrap(&list[2], Direction::Right), Some(1));
    // To the left of the leftmost: both others lie to the right, 3 lies furthest.
    assert_eq!(wrap(&list[0], Direction::Left), Some(3));
    assert_eq!(wrap(&list[1], Direction::Right), Some(1));
    assert_eq!(wrap(&list[1], Direction::Left), Some(3));
    // None lies above or below: the first other one.
    assert_eq!(wrap(&list[0], Direction::Up), Some(2));
    assert_eq!(wrap(&list[1], Direction::Down), Some(1));
    assert!(
        CommandEventHandler::find_adjacent_screen(&r, &list[2], Direction::Right, false).is_none()
    );
}

#[test]
fn the_opposite_end_does_not_depend_on_the_order_of_the_list() {
    let mut r = reactor();
    for order in [[0, 1, 2], [0, 2, 1], [1, 0, 2], [1, 2, 0], [2, 0, 1], [2, 1, 0]] {
        let all = reactor().space_manager.screens;
        r.space_manager.screens = order.iter().map(|i: &usize| all[*i].clone()).collect();
        let right =
            CommandEventHandler::find_adjacent_screen(&r, &all[2], Direction::Right, true);
        assert_eq!(right.map(|s| s.screen_id), Some(1));
        let left = CommandEventHandler::find_adjacent_screen(&r, &all[0], Direction::Left, true);
        assert_eq!(left.map(|s| s.screen_id), Some(3));
    }
}

#[test]
fn of_two_screens_equally_far_the_last_is_the_opposite_end() {
    let mut r = reactor();
    r.space_manager.screens[0].center = point(0, 30);
    r.space_manager.screens[1].center = point(0, -30);
    let current = r.space_manager.screens[2].clone();
    let found = CommandEventHandler::find_adjacent_screen(&r, &current, Direction::Right, true);
    assert_eq!(found.map(|s| s.screen_id), Some(2));
}

#[test]
fn wrapped_workspace_goes_to_the_opposite_end() {
    let mut r = reactor();
    r.space_manager.command_space = Some(space(30));
    assert_eq!(
        CommandEventHandler::find_monitor_move(&r, MonitorDirection::Right, true),
        Ok(MonitorMove { from: space(30), to: space(10), center: point(-100, 0) })
    );
    CommandEventHandler::handle_move_workspace_to_monitor(&mut r, MonitorDirection::Right, true);
    assert_eq!(
        r.effects,
        vec![Effect::MoveWindowToSpace(movable(7, 1, 71), 10), Effect::Warp(point(-100, 0))]
    );
}

#[test]
fn wrap_up_and_down() {
    let mut r = reactor();
    r.space_manager.screens[0].center = point(0, 50);
    r.space_manager.screens[2].center = point(0, -50);
    let current = r.space_manager.screens[1].clone();
    let up = CommandEventHandler::find_adjacent_screen(&r, &current, Direction::Up, true);
    assert_eq!(up.map(|s| s.screen_id), Some(3));
    let down = CommandEventHandler::find_adjacent_screen(&r, &current, Direction::Down, true);
    assert_eq!(down.map(|s| s.screen_id), Some(1));
}

#[test]
fn wrap_on_two_screens_leads_to_the_other() {
    let mut r = reactor();
    r.space_manager.screens.truncate(2);
    for d in [Direction::Left, Direction::Right, Direction::Up, Direction::Down] {
        for i in 0..2 {
            let current = r.space_manager.screens[i].clone();
            let found = CommandEventHandler::find_adjacent_screen(&r, &current, d, true);
            assert_eq!(
                found.map(|s| s.screen_id),
                Some(r.space_manager.screens[1 - i].screen_id)
            );
        }
    }
}

#[test]
fn opposite_directions() {
    assert_eq!(Direction::Left.opposite(), Direction::Right);
    assert_eq!(Direction::Right.opposite(), Direction::Left);
    assert_eq!(Direction::Up.opposite(), Direction::Down);
    assert_eq!(Direction::Down.opposite(), Direction::Up);
    assert!(Direction::Up.is_towards(point(0, 0), point(0, 1)));
    assert!(!Direction::Down.is_towards(point(0, 0), point(0, 0)));
}

#[test]
fn window_keys_differ() {
    let ids = [
        window(0, 0),
        window(0, 1),
        window(1, 0),
        window(-1, u32::MAX),
        window(i32::MIN, 0),
        window(i32::MAX, u32::MAX),
    ];
    for (i, a) in ids.iter().enumerate() {
        for (j, b) in ids.iter().enumerate() {
            assert_eq!(a.key() == b.key(), i == j);
        }
    }
    assert_eq!(window(i32::MIN, 5).key(), 5);
    assert_eq!(window(i32::MAX, u32::MAX).key(), u64::MAX);
}

#[test]
fn metrics_are_handed_on() {
    let mut r = reactor();
    CommandEventHandler::handle_command_metrics(
        &mut r,
        MetricsCommand { text: "show-timing".to_string() },
    );
    assert_eq!(
        r.effects,
        vec![Effect::Metrics(MetricsCommand { text: "show-timing".to_string() })]
    );
}

#[test]
fn new_keys_reach_the_controller() {
    let mut r = reactor();
    CommandEventHandler::handle_config_updated(&mut r, config("b"));
    assert_eq!(r.config_manager.config, config("b"));
    assert_eq!(
        r.effects,
        vec![
            Effect::InstallConfig(config("b")),
            Effect::SetLayoutSettings("gaps = 4".to_string()),
            Effect::UpdateVirtualWorkspaceSettings("count = 9".to_string()),
            Effect::UpdateDragConfig("snap = 0.3".to_string()),
            Effect::StackLineConfigUpdated(config("b")),
            Effect::MenuConfigUpdated(config("b")),
            Effect::UpdateLayout(false, true),
            Effect::WmConfigUpdated(config("b")),
        ]
    );
}

#[test]
fn unchanged_keys_do_not_reach_the_controller() {
    let mut r = reactor();
    let mut same_keys = config("a");
    same_keys.settings.layout = "gaps = 8".to_string();
    CommandEventHandler::handle_config_updated(&mut r, same_keys.clone());
    assert_eq!(r.effects.len(), 7);
    assert_eq!(r.effects[0], Effect::InstallConfig(same_keys.clone()));
    assert_eq!(r.effects[1], Effect::SetLayoutSettings("gaps = 8".to_string()));
    assert_eq!(r.effects[6], Effect::UpdateLayout(false, true));
    assert_eq!(r.config_manager.config, same_keys);
}

#[test]
fn absent_actors_hear_nothing_of_a_new_config() {
    let mut r = reactor();
    r.communication_manager.stack_line_tx = false;
    r.communication_manager.wm_sender = false;
    r.menu_manager.menu_tx = false;
    CommandEventHandler::handle_config_updated(&mut r, config("b"));
    assert_eq!(
        r.effects,
        vec![
            Effect::InstallConfig(config("b")),
            Effect::SetLayoutSettings("gaps = 4".to_string()),
            Effect::UpdateVirtualWorkspaceSettings("count = 9".to_string()),
            Effect::UpdateDragConfig("snap = 0.3".to_string()),
            Effect::UpdateLayout(false, true),
        ]
    );
}

#[test]
fn debug_lists_the_spaces_on_show() {
    let mut r = reactor();
    r.space_manager.screens[1].space = None;
    CommandEventHandler::handle_command_reactor_debug(&mut r);
    assert_eq!(r.effects, vec![Effect::DebugTree(space(10), "", true), Effect::DebugTree(space(30), "", true)]);
}

#[test]
fn serialized_state_is_printed() {
    let mut r = reactor();
    CommandEventHandler::handle_command_reactor_serialize(&mut r, Err("no".to_string()));
    assert!(r.effects.is_empty());
    CommandEventHandler::handle_command_reactor_serialize(&mut r, Ok("{}".to_string()));
    assert_eq!(r.effects, vec![Effect::Print { text: "{}".to_string(), end: '\n' }]);
}

#[test]
fn exit_code_tells_whether_the_layout_was_saved() {
    let mut r = reactor();
    CommandEventHandler::handle_command_reactor_save_and_exit(&mut r, Ok(()));
    CommandEventHandler::handle_command_reactor_save_and_exit(&mut r, Err("disk".to_string()));
    assert_eq!(r.effects, vec![Effect::Exit(0), Effect::Exit(3)]);
}

#[test]
fn switch_space_goes_to_the_window_server() {
    let mut r = reactor();
    CommandEventHandler::handle_command_reactor_switch_space(&mut r, Direction::Right);
    assert_eq!(r.effects, vec![Effect::SwitchSpace(Direction::Right)]);
}

#[test]
fn a_known_window_is_focused_and_raised() {
    let mut r = reactor();
    CommandEventHandler::handle_command_reactor_focus_window(&mut r, window(7, 1), Some(wsid(5)));
    let mut app_handles = HashMap::new();
    app_handles.insert(7, AppHandle { raw: 700 });
    assert_eq!(
        r.effects,
        vec![
            Effect::WindowFocused(space(20), window(7, 1)),
            Effect::Raise(RaiseRequest {
                raise_windows: vec![],
                focus_window: Some((window(7, 1), None)),
                app_handles,
            }),
        ]
    );
}

#[test]
fn a_known_window_without_space_or_app_is_still_raised() {
    let mut r = reactor();
    r.app_manager.apps.clear();
    CommandEventHandler::handle_command_reactor_focus_window(&mut r, window(7, 2), None);
    assert_eq!(
        r.effects,
        vec![Effect::Raise(RaiseRequest {
            raise_windows: vec![],
            focus_window: Some((window(7, 2), None)),
            app_handles: HashMap::new(),
        })]
    );
}

#[test]
fn an_unknown_window_is_left_to_the_window_server() {
    let mut r = reactor();
    CommandEventHandler::handle_command_reactor_focus_window(&mut r, window(9, 9), None);
    assert!(r.effects.is_empty());
    CommandEventHandler::handle_command_reactor_focus_window(&mut r, window(9, 9), Some(wsid(5)));
    assert_eq!(r.effects, vec![Effect::MakeKeyWindow(9, wsid(5))]);
}

#[test]
fn mission_control_goes_through_the_controller() {
    let mut r = reactor();
    CommandEventHandler::handle_command_reactor_show_mission_control_all(&mut r);
    CommandEventHandler::handle_command_reactor_show_mission_control_current(&mut r);
    CommandEventHandler::handle_command_reactor_dismiss_mission_control(&mut r);
    assert_eq!(
        r.effects,
        vec![
            Effect::Wm(WmCmd::ShowMissionControlAll),
            Effect::Wm(WmCmd::ShowMissionControlCurrent),
            Effect::Wm(WmCmd::ShowMissionControlAll),
        ]
    );
}

#[test]
fn mission_control_without_a_controller() {
    let mut r = reactor();
    r.communication_manager.wm_sender = false;
    CommandEventHandler::handle_command_reactor_show_mission_control_all(&mut r);
    CommandEventHandler::handle_command_reactor_show_mission_control_current(&mut r);
    assert!(r.effects.is_empty());
    CommandEventHandler::handle_command_reactor_dismiss_mission_control(&mut r);
    assert_eq!(r.effects, vec![Effect::SetMissionControlActive(false)]);
}

#[test]
fn the_last_focused_window_comes_first() {
    let mut r = reactor();
    let middle = r.space_manager.screens[1].clone();
    assert!(CommandEventHandler::focus_first_window_on_screen(&mut r, &middle));
    let right = r.space_manager.screens[2].clone();
    assert!(CommandEventHandler::focus_first_window_on_screen(&mut r, &right));
    let left = r.space_manager.screens[0].clone();
    assert!(!CommandEventHandler::focus_first_window_on_screen(&mut r, &left));
    let blank = screen(4, "blank", point(0, 0), None);
    assert!(!CommandEventHandler::focus_first_window_on_screen(&mut r, &blank));
    assert_eq!(
        r.effects,
        vec![
            Effect::WindowFocused(space(20), window(8, 1)),
            Effect::WindowFocused(space(30), window(7, 2)),
        ]
    );
}

#[test]
fn mouse_moves_to_a_display_by_index_and_by_uuid() {
    let mut r = reactor();
    CommandEventHandler::handle_command_reactor_move_mouse_to_display(
        &mut r,
        &DisplaySelector::Index(2),
    );
    CommandEventHandler::handle_command_reactor_move_mouse_to_display(
        &mut r,
        &DisplaySelector::Uuid("middle".to_string()),
    );
    CommandEventHandler::handle_command_reactor_move_mouse_to_display(
        &mut r,
        &DisplaySelector::Index(0),
    );
    assert_eq!(
        r.effects,
        vec![
            Effect::Warp(point(100, 0)),
            Effect::WindowFocused(space(30), window(7, 2)),
            Effect::Warp(point(0, 0)),
            Effect::WindowFocused(space(20), window(8, 1)),
            Effect::Warp(point(-100, 0)),
        ]
    );
}

#[test]
fn mouse_stays_where_no_display_is_meant() {
    let mut r = reactor();
    CommandEventHandler::handle_command_reactor_move_mouse_to_display(
        &mut r,
        &DisplaySelector::Index(3),
    );
    CommandEventHandler::handle_command_reactor_move_mouse_to_display(
        &mut r,
        &DisplaySelector::Uuid("MIDDLE".to_string()),
    );
    assert!(r.effects.is_empty());
}

#[test]
fn without_the_event_tap_the_window_is_focused_all_the_same() {
    let mut r = reactor();
    r.communication_manager.event_tap_tx = false;
    CommandEventHandler::handle_command_reactor_move_mouse_to_display(
        &mut r,
        &DisplaySelector::Index(1),
    );
    assert_eq!(r.effects, vec![Effect::WindowFocused(space(20), window(8, 1))]);
}

#[test]
fn the_first_of_two_displays_with_one_uuid_is_meant() {
    let mut r = reactor();
    r.space_manager.screens[2].display_uuid = "left".to_string();
    let found = r.space_manager.screen_by_uuid(&"left".to_string());
    assert_eq!(found.map(|s| s.screen_id), Some(1));
}

#[test]
fn display_focus_takes_a_window_or_moves_the_pointer() {
    let mut r = reactor();
    let middle = r.space_manager.screens[1].clone();
    let left = r.space_manager.screens[0].clone();
    CommandEventHandler::handle_command_reactor_focus_display(&mut r, Some(middle));
    CommandEventHandler::handle_command_reactor_focus_display(&mut r, Some(left));
    CommandEventHandler::handle_command_reactor_focus_display(&mut r, None);
    assert_eq!(
        r.effects,
        vec![
            Effect::WindowFocused(space(20), window(8, 1)),
            Effect::Warp(point(-100, 0)),
        ]
    );
}

#[test]
fn close_prefers_the_window_that_is_named() {
    let mut r = reactor();
    CommandEventHandler::handle_command_reactor_close_window(&mut r, Some(wsid(81)));
    CommandEventHandler::handle_command_reactor_close_window(&mut r, Some(wsid(5)));
    CommandEventHandler::handle_command_reactor_close_window(&mut r, None);
    assert_eq!(
        r.effects,
        vec![
            Effect::CloseWindow(window(8, 1)),
            Effect::CloseWindow(window(7, 1)),
            Effect::CloseWindow(window(7, 1)),
        ]
    );
    r.effects.clear();
    r.window_manager.main_window = None;
    CommandEventHandler::handle_command_reactor_close_window(&mut r, Some(wsid(5)));
    assert!(r.effects.is_empty());
}
