//! What holds of the commands over all inputs, and across commands.

use vstd::prelude::*;

use crate::effects::{
    Config, EffectView, LayoutCommand, ResponseSource, WmCmd, WorkspaceSwitchManager,
    WorkspaceSwitchState,
};
use crate::geometry;
use crate::geometry::{Direction, MonitorDirection, Point};
use crate::plan;
use crate::plan::{MonitorMove, MoveRefusal, MoveReport};
use crate::reactor::Reactor;
use crate::screens;
use crate::screens::{DisplaySelector, Screen, SpaceId, SpaceManager};
use crate::windows;
use crate::windows::{MovableWindow, WindowId, WindowManager, WindowServerId};

verus! {

// Directions and keys.

/// To turn twice is not to turn, and a point lies one way from another exactly
/// where that one lies the other way from it.
pub proof fn law_opposite(direction: Direction, a: Point, b: Point)
    ensures
        geometry::opposite_of(geometry::opposite_of(direction)) == direction,
        geometry::lies_towards(geometry::opposite_of(direction), a, b)
            == geometry::lies_towards(direction, b, a),
{
}

/// Different windows have different keys.
pub proof fn law_window_keys_differ(a: WindowId, b: WindowId)
    requires
        windows::window_key(a) == windows::window_key(b),
    ensures
        a == b,
{
}

// Workspace switches.

/// The record of switches after a run of commands.
pub open spec fn record_after_all(
    record: WorkspaceSwitchManager,
    commands: Seq<LayoutCommand>,
) -> WorkspaceSwitchManager
    decreases commands.len(),
{
    if commands.len() == 0 {
        record
    } else {
        plan::record_after(record_after_all(record, commands.drop_last()), commands.last())
    }
}

/// How many of the commands are switches.
pub open spec fn switches_in(commands: Seq<LayoutCommand>) -> nat
    decreases commands.len(),
{
    if commands.len() == 0 {
        0
    } else {
        switches_in(commands.drop_last()) + if commands.last().switches() {
            1nat
        } else {
            0nat
        }
    }
}

/// Over any run of commands, the switches are numbered one after the other, modulo
/// two to the power of 64. The active switch is the latest one, and a switch is
/// under way exactly where the latest command was one.
pub proof fn law_switches_are_numbered(
    record: WorkspaceSwitchManager,
    commands: Seq<LayoutCommand>,
)
    ensures
        record_after_all(record, commands).workspace_switch_generation == (
        record.workspace_switch_generation + switches_in(commands)) % 0x1_0000_0000_0000_0000,
        switches_in(commands) > 0 ==> record_after_all(record, commands).active_workspace_switch
            == Some(record_after_all(record, commands).workspace_switch_generation),
        switches_in(commands) == 0 ==> record_after_all(record, commands).active_workspace_switch
            == record.active_workspace_switch,
        commands.len() > 0 ==> (record_after_all(record, commands).workspace_switch_state
            == WorkspaceSwitchState::Active <==> commands.last().switches()),
    decreases commands.len(),
{
    if commands.len() > 0 {
        law_switches_are_numbered(record, commands.drop_last());
    }
}

/// Two switches have different numbers, unless two to the power of 64 switches lie
/// between them.
pub proof fn law_switch_numbers_differ(
    record: WorkspaceSwitchManager,
    commands: Seq<LayoutCommand>,
)
    requires
        0 < switches_in(commands) < 0x1_0000_0000_0000_0000,
    ensures
        record_after_all(record, commands).workspace_switch_generation
            != record.workspace_switch_generation,
{
    law_switches_are_numbered(record, commands);
}

/// A switch in a space stores the floating positions, then gets its number, then
/// goes to the layout engine, then is noted as under way, and then has the engine's
/// response acted on, for that space.
pub proof fn law_switch_in_a_space(reactor: Reactor, command: LayoutCommand, space: SpaceId)
    requires
        command.switches(),
        reactor.space_manager.command_space == Some(space),
    ensures
        plan::layout_plan(reactor, command) == seq![
            EffectView::StoreFloatingPositions(space),
            EffectView::RecordSwitch(
                plan::record_of_new_switch(reactor.workspace_switch_manager),
            ),
            EffectView::VirtualWorkspaceCommand { space, command },
            EffectView::RecordSwitch(
                plan::record_after(reactor.workspace_switch_manager, command),
            ),
            EffectView::LayoutResponse {
                response: ResponseSource::EngineReply,
                workspace_space: Some(space),
            },
        ],
{
}

/// A switch for which there is no space gets its number and is noted as under way
/// all the same, but stores nothing and does not reach the layout engine.
pub proof fn law_switch_without_a_space(reactor: Reactor, command: LayoutCommand)
    requires
        command.switches(),
        reactor.space_manager.command_space is None,
    ensures
        plan::layout_plan(reactor, command) == seq![
            EffectView::RecordSwitch(
                plan::record_of_new_switch(reactor.workspace_switch_manager),
            ),
            EffectView::RecordSwitch(
                plan::record_after(reactor.workspace_switch_manager, command),
            ),
            EffectView::LayoutResponse {
                response: ResponseSource::Empty,
                workspace_space: None,
            },
        ],
{
}

// Layout commands.

/// Whether an effect is a call of the layout engine with a command.
pub open spec fn calls_engine(effect: EffectView) -> bool {
    effect is VirtualWorkspaceCommand || effect is EngineCommand
}

/// The plan of a layout command ends with the record of switches that the reactor
/// keeps and then the response, and holds no other response. The layout engine is
/// called at most once, before that, with the command itself; the response is the
/// engine's exactly where it was called.
pub proof fn law_layout_plan_shape(reactor: Reactor, command: LayoutCommand)
    ensures
        plan::layout_plan(reactor, command).len() >= 2,
        plan::layout_plan(reactor, command).last() == (EffectView::LayoutResponse {
            response: plan::response_to(reactor, command),
            workspace_space: plan::switch_space(reactor, command),
        }),
        plan::layout_plan(reactor, command).drop_last().last() == EffectView::RecordSwitch(
            plan::record_after(reactor.workspace_switch_manager, command),
        ),
        forall|i: int|
            0 <= i < plan::layout_plan(reactor, command).len() - 1
                ==> !(#[trigger] plan::layout_plan(reactor, command)[i] is LayoutResponse),
        forall|i: int, j: int|
            #![trigger plan::layout_plan(reactor, command)[i], plan::layout_plan(reactor, command)[j]]
            0 <= i < plan::layout_plan(reactor, command).len() && 0 <= j < plan::layout_plan(
                reactor,
                command,
            ).len() && calls_engine(plan::layout_plan(reactor, command)[i]) && calls_engine(
                plan::layout_plan(reactor, command)[j],
            ) ==> i == j,
        (exists|i: int|
            0 <= i < plan::layout_plan(reactor, command).len() - 2 && calls_engine(
                #[trigger] plan::layout_plan(reactor, command)[i],
            )) <==> plan::response_to(reactor, command) == ResponseSource::EngineReply,
        forall|i: int|
            0 <= i < plan::layout_plan(reactor, command).len() ==> match
            #[trigger] plan::layout_plan(reactor, command)[i] {
                EffectView::VirtualWorkspaceCommand { space, command: called } => called
                    == command && reactor.space_manager.command_space == Some(space),
                EffectView::EngineCommand(request) => request.command == command
                    && request.space == reactor.space_manager.command_space,
                _ => true,
            },
{
    let opening = plan::opening_plan(reactor, command);
    let core = plan::core_plan(reactor, command);
    let whole = plan::layout_plan(reactor, command);
    lemma_core_plan_kinds(reactor, command);
    assert forall|i: int| 0 <= i < whole.len() - 2 implies whole[i] == if i < opening.len() {
        #[trigger] opening[i]
    } else {
        core[i - opening.len()]
    } by {}
    if plan::engine_call(reactor, command) is Some {
        assert(calls_engine(whole[opening.len() as int]));
    }
}

/// The core of a layout plan is the call of the layout engine alone, or moves
/// windows and the pointer alone.
proof fn lemma_core_plan_kinds(reactor: Reactor, command: LayoutCommand)
    ensures
        match plan::engine_call(reactor, command) {
            Some(call) => plan::core_plan(reactor, command) == seq![call] && calls_engine(call),
            None => forall|i: int|
                0 <= i < plan::core_plan(reactor, command).len() ==> {
                    ||| #[trigger] plan::core_plan(reactor, command)[i] is MoveWindowToSpace
                    ||| plan::core_plan(reactor, command)[i] is Warp
                },
        },
{
}

/// A command to create a workspace has no effect but to note that no switch is under
/// way: the layout engine is not called, whatever space commands act on.
pub proof fn law_create_workspace_is_inert(reactor: Reactor)
    ensures
        plan::layout_plan(reactor, LayoutCommand::CreateWorkspace) == seq![
            EffectView::RecordSwitch(
                plan::record_after(
                    reactor.workspace_switch_manager,
                    LayoutCommand::CreateWorkspace,
                ),
            ),
            EffectView::LayoutResponse {
                response: ResponseSource::Empty,
                workspace_space: None,
            },
        ],
{
}

/// A layout command does the same whatever commands came before it: what it calls for
/// depends on the parts of the reactor that no handler writes. Only the marks that keep
/// the record of switches depend on that record besides.
pub proof fn law_layout_commands_do_not_disturb_each_other(
    a: Reactor,
    b: Reactor,
    command: LayoutCommand,
)
    requires
        a.observes_same(b),
    ensures
        plan::core_plan(a, command) == plan::core_plan(b, command),
        plan::response_to(a, command) == plan::response_to(b, command),
        plan::switch_space(a, command) == plan::switch_space(b, command),
        a.workspace_switch_manager == b.workspace_switch_manager ==> plan::layout_plan(a, command)
            == plan::layout_plan(b, command),
{
}

// Moves to another monitor.

/// A move leaves the space that commands act on, for another one.
pub proof fn law_move_goes_elsewhere(
    manager: SpaceManager,
    direction: MonitorDirection,
    wrap_around: bool,
)
    ensures
        match plan::monitor_move_of(manager, direction, wrap_around) {
            Ok(route) => manager.command_space == Some(route.from) && route.to != route.from,
            Err(_) => true,
        },
{
}

/// A move to a monitor that is reported as refused, for whatever reason, moves nothing
/// and is answered with the empty response.
pub proof fn law_refused_move(reactor: Reactor, command: LayoutCommand, reason: MoveRefusal)
    requires
        plan::move_report_of(reactor, command) == Some(MoveReport::Refused(reason)),
    ensures
        plan::layout_plan(reactor, command) == seq![
            EffectView::RecordSwitch(
                plan::record_after(reactor.workspace_switch_manager, command),
            ),
            EffectView::LayoutResponse {
                response: ResponseSource::Empty,
                workspace_space: None,
            },
        ],
{
}

/// Whatever a layout command moves, it moves to the space that its report names.
pub proof fn law_moves_go_where_reported(
    reactor: Reactor,
    command: LayoutCommand,
    window: MovableWindow,
    space: u64,
)
    requires
        plan::layout_plan(reactor, command).contains(
            EffectView::MoveWindowToSpace(window, space),
        ),
    ensures
        match plan::move_report_of(reactor, command) {
            Some(MoveReport::Workspace { route, .. }) => space == route.to.raw,
            Some(MoveReport::Window { route, window: moved }) => space == route.to.raw
                && plan::movable_of(reactor.window_manager, moved) == Some(window),
            _ => false,
        },
{
    let whole = plan::layout_plan(reactor, command);
    let opening = plan::opening_plan(reactor, command);
    let core = plan::core_plan(reactor, command);
    lemma_core_plan_kinds(reactor, command);
    let i = choose|i: int|
        0 <= i < whole.len() && whole[i] == EffectView::MoveWindowToSpace(window, space);
    assert(opening.len() <= i < whole.len() - 2);
    assert(core[i - opening.len()] == whole[i]);
}

/// Those of `windows` that can be moved are exactly the ones among them that have a
/// number with the window server.
pub proof fn law_movable_windows(manager: WindowManager, windows: Seq<WindowId>)
    ensures
        plan::movable_windows_of(manager, windows).len() <= windows.len(),
        forall|id: MovableWindow| #[trigger]
            plan::movable_windows_of(manager, windows).contains(id) <==> exists|j: int|
                0 <= j < windows.len() && plan::movable_of(manager, #[trigger] windows[j])
                    == Some(id),
    decreases windows.len(),
{
    if windows.len() > 0 {
        let before = windows.drop_last();
        let ids = plan::movable_windows_of(manager, windows);
        let ids_before = plan::movable_windows_of(manager, before);
        law_movable_windows(manager, before);
        assert forall|id: MovableWindow| #[trigger] ids.contains(id) implies exists|j: int|
            0 <= j < windows.len() && plan::movable_of(manager, #[trigger] windows[j]) == Some(
                id,
            ) by {
            if ids_before.contains(id) {
                let j = choose|j: int|
                    0 <= j < before.len() && plan::movable_of(manager, #[trigger] before[j])
                        == Some(id);
                assert(windows[j] == before[j]);
            } else {
                assert(windows[windows.len() - 1] == windows.last());
            }
        }
        assert forall|id: MovableWindow, j: int|
            0 <= j < windows.len() && plan::movable_of(manager, #[trigger] windows[j]) == Some(
                id,
            ) implies #[trigger] ids.contains(id) by {
            if j < before.len() {
                assert(before[j] == windows[j]);
                assert(ids_before.contains(id));
                let k = choose|k: int| 0 <= k < ids_before.len() && ids_before[k] == id;
                assert(ids[k] == id);
            } else {
                assert(ids[ids.len() - 1] == id);
            }
        }
    }
}

/// When a workspace with windows is moved, every window of it that has a number with
/// the window server is moved to the monitor's space, nothing else is moved, and the
/// pointer goes to the middle of the monitor last of all, if the event tap is there.
pub proof fn law_workspace_moves_as_a_whole(
    reactor: Reactor,
    direction: MonitorDirection,
    wrap_around: bool,
    route: MonitorMove,
)
    requires
        plan::workspace_move_of(reactor, direction, wrap_around)
            == Ok::<MonitorMove, MoveRefusal>(route),
    ensures
        forall|window: MovableWindow, space: u64|
            #[trigger] plan::workspace_to_monitor_plan(reactor, direction, wrap_around).contains(
                EffectView::MoveWindowToSpace(window, space),
            ) <==> space == route.to.raw && exists|j: int|
                0 <= j < reactor.layout_engine.active_on(route.from).len() && plan::movable_of(
                    reactor.window_manager,
                    #[trigger] reactor.layout_engine.active_on(route.from)[j],
                ) == Some(window),
        forall|i: int|
            0 <= i < plan::workspace_to_monitor_plan(reactor, direction, wrap_around).len()
                && !(#[trigger] plan::workspace_to_monitor_plan(
                reactor,
                direction,
                wrap_around,
            )[i] is MoveWindowToSpace) ==> i == plan::workspace_to_monitor_plan(
                reactor,
                direction,
                wrap_around,
            ).len() - 1 && plan::workspace_to_monitor_plan(reactor, direction, wrap_around)[i]
                == EffectView::Warp(route.center),
        reactor.communication_manager.event_tap_tx
            <==> plan::workspace_to_monitor_plan(reactor, direction, wrap_around).contains(
            EffectView::Warp(route.center),
        ),
{
    let windows = reactor.layout_engine.active_on(route.from);
    let ids = plan::movable_windows_of(reactor.window_manager, windows);
    let moves = plan::move_windows_plan(ids, route.to);
    let whole = plan::workspace_to_monitor_plan(reactor, direction, wrap_around);
    law_movable_windows(reactor.window_manager, windows);
    assert forall|i: int| 0 <= i < ids.len() implies #[trigger] whole[i]
        == EffectView::MoveWindowToSpace(ids[i], route.to.raw) by {
        assert(whole[i] == moves[i]);
    }
    assert forall|window: MovableWindow, space: u64|
        #![trigger whole.contains(EffectView::MoveWindowToSpace(window, space))]
        whole.contains(EffectView::MoveWindowToSpace(window, space)) implies space == route.to.raw
        && ids.contains(window) by {
        let i = choose|i: int|
            0 <= i < whole.len() && whole[i] == EffectView::MoveWindowToSpace(window, space);
        assert(i < ids.len());
        assert(ids[i] == window);
    }
    assert forall|window: MovableWindow, space: u64|
        #![trigger whole.contains(EffectView::MoveWindowToSpace(window, space))]
        space == route.to.raw && ids.contains(window) implies whole.contains(
        EffectView::MoveWindowToSpace(window, space),
    ) by {
        let i = choose|i: int| 0 <= i < ids.len() && ids[i] == window;
        assert(whole[i] == EffectView::MoveWindowToSpace(window, space));
    }
    if reactor.communication_manager.event_tap_tx {
        assert(whole[whole.len() - 1] == EffectView::Warp(route.center));
    }
}

/// A command to move the main window moves that window alone, or nothing, and leaves
/// the pointer where it is.
pub proof fn law_node_moves_alone(
    reactor: Reactor,
    direction: MonitorDirection,
    wrap_around: bool,
)
    ensures
        plan::node_to_monitor_plan(reactor, direction, wrap_around).len() <= 1,
        forall|i: int|
            0 <= i < plan::node_to_monitor_plan(reactor, direction, wrap_around).len()
                ==> match #[trigger] plan::node_to_monitor_plan(
                reactor,
                direction,
                wrap_around,
            )[i] {
                EffectView::MoveWindowToSpace(id, _) => match reactor.window_manager.main_window {
                    Some(window) => plan::movable_of(reactor.window_manager, window)
                        == Some(id),
                    None => false,
                },
                _ => false,
            },
{
}

// Searches for a monitor.

/// Whether no two screens have the same number.
pub open spec fn distinct_ids(list: Seq<Screen>) -> bool {
    forall|i: int, j: int|
        0 <= i < list.len() && 0 <= j < list.len() && i != j ==> #[trigger] list[i].screen_id
            != #[trigger] list[j].screen_id
}

/// The screen reached after `steps` steps to the next one, with wrap-around.
pub open spec fn walk(list: Seq<Screen>, start: Screen, steps: nat) -> Option<Screen>
    decreases steps,
{
    if steps == 0 {
        Some(start)
    } else {
        match walk(list, start, (steps - 1) as nat) {
            Some(screen) => plan::next_screen(list, screen, true),
            None => None,
        }
    }
}

/// A screen of the list is found by its number at its own place.
proof fn lemma_found_at(list: Seq<Screen>, i: int)
    requires
        distinct_ids(list),
        0 <= i < list.len(),
    ensures
        screens::first_where(list, screens::has_id(list[i].screen_id)) == Some(i),
{
    screens::lemma_first_where(list, screens::has_id(list[i].screen_id));
    assert(screens::has_id(list[i].screen_id)(list[i]));
}

/// With wrap-around, the next screen is the one a place on, counted modulo the number
/// of screens. It is never the screen itself.
pub proof fn law_next_with_wrap(list: Seq<Screen>, i: int)
    requires
        distinct_ids(list),
        0 <= i < list.len(),
        list.len() > 1,
    ensures
        plan::next_screen(list, list[i], true) == Some(list[(i + 1) % list.len() as int]),
        list[(i + 1) % list.len() as int].screen_id != list[i].screen_id,
{
    lemma_found_at(list, i);
    if i + 1 < list.len() {
        vstd::arithmetic::div_mod::lemma_small_mod((i + 1) as nat, list.len());
    } else {
        vstd::arithmetic::div_mod::lemma_mod_self_0(list.len() as int);
    }
}

/// Without wrap-around, the next screen is the one a place on, and the last screen
/// has none.
pub proof fn law_next_without_wrap(list: Seq<Screen>, i: int)
    requires
        distinct_ids(list),
        0 <= i < list.len(),
    ensures
        plan::next_screen(list, list[i], false) == if i + 1 < list.len() {
            Some(list[i + 1])
        } else {
            None
        },
{
    lemma_found_at(list, i);
}

/// Steps to the next screen go round all screens: after `steps` of them from the
/// screen in place `i`, the screen in place `i + steps`, counted modulo the number of
/// screens, is reached.
pub proof fn law_next_goes_round(list: Seq<Screen>, i: int, steps: nat)
    requires
        distinct_ids(list),
        0 <= i < list.len(),
        list.len() > 1,
    ensures
        walk(list, list[i], steps) == Some(list[(i + steps) % list.len() as int]),
    decreases steps,
{
    let n = list.len() as int;
    if steps == 0 {
        vstd::arithmetic::div_mod::lemma_small_mod(i as nat, list.len());
    } else {
        let at = (i + steps - 1) % n;
        law_next_goes_round(list, i, (steps - 1) as nat);
        law_next_with_wrap(list, at);
        vstd::arithmetic::div_mod::lemma_add_mod_noop(i + steps - 1, 1, n);
        vstd::arithmetic::div_mod::lemma_small_mod(1, list.len());
    }
}

/// Where a direction has no neighbour, the search with wrap-around gives a screen
/// other than the current one exactly where there is one. If some of them lie the
/// other way, it goes to the opposite end: it gives one of these, and no screen other
/// than the current one lies further that way.
pub proof fn law_wrap_goes_to_the_opposite_end(
    manager: SpaceManager,
    current: Screen,
    direction: Direction,
)
    requires
        manager.focus_neighbours.towards(direction) is None,
    ensures
        match plan::adjacent_screen(manager, current, direction, true) {
            Some(screen) => {
                &&& manager.screens@.contains(screen)
                &&& screen.screen_id != current.screen_id
                &&& (exists|j: int|
                    0 <= j < manager.screens@.len() && plan::others_towards(
                        current.screen_id,
                        current.center,
                        geometry::opposite_of(direction),
                    )(#[trigger] manager.screens@[j])) ==> {
                    &&& geometry::lies_towards(
                        geometry::opposite_of(direction),
                        current.center,
                        screen.center,
                    )
                    &&& forall|j: int|
                        0 <= j < manager.screens@.len()
                            && #[trigger] manager.screens@[j].screen_id != current.screen_id
                            ==> !geometry::lies_towards(
                            geometry::opposite_of(direction),
                            screen.center,
                            manager.screens@[j].center,
                        )
                }
            },
            None => forall|j: int|
                0 <= j < manager.screens@.len() ==> #[trigger] manager.screens@[j].screen_id
                    == current.screen_id,
        },
{
    let list = manager.screens@;
    let back = geometry::opposite_of(direction);
    let behind = plan::others_towards(current.screen_id, current.center, back);
    let other = screens::lacks_id(current.screen_id);
    screens::lemma_furthest_where(list, behind, back);
    screens::lemma_first_where(list, other);
    assert forall|j: int|
        0 <= j < list.len() && #[trigger] list[j].screen_id != current.screen_id implies other(
        list[j],
    ) && (behind(list[j]) || !geometry::lies_towards(back, current.center, list[j].center)) by {}
}

/// With two screens, a search with wrap-around that has no neighbour to go to leads
/// from either screen to the other one, in any direction.
pub proof fn law_wrap_on_two_screens(
    manager: SpaceManager,
    i: int,
    direction: Direction,
)
    requires
        distinct_ids(manager.screens@),
        manager.screens@.len() == 2,
        0 <= i < 2,
        manager.focus_neighbours.towards(direction) is None,
    ensures
        plan::adjacent_screen(manager, manager.screens@[i], direction, true) == Some(
            manager.screens@[1 - i],
        ),
{
    let list = manager.screens@;
    law_wrap_goes_to_the_opposite_end(manager, list[i], direction);
    match plan::adjacent_screen(manager, list[i], direction, true) {
        Some(screen) => {
            let k = choose|k: int| 0 <= k < list.len() && list[k] == screen;
            assert(k != i);
        },
        None => {
            assert(list[1 - i].screen_id == list[i].screen_id);
        },
    }
}

/// Wrap-around only adds: where a target is found without it, the same is found with
/// it.
pub proof fn law_wrap_only_adds(
    manager: SpaceManager,
    current: Screen,
    direction: MonitorDirection,
)
    ensures
        match plan::target_screen(manager, current, direction, false) {
            Some(screen) => plan::target_screen(manager, current, direction, true) == Some(
                screen,
            ),
            None => true,
        },
{
}

// Spaces on show.

/// A space has a center exactly where it is listed, and the center is the one listed
/// with it last.
pub proof fn law_centers(visible: Seq<(SpaceId, Point)>)
    ensures
        forall|i: int|
            0 <= i < visible.len() ==> screens::centers_of(visible).contains_key(
                (#[trigger] visible[i]).0.raw,
            ),
        forall|raw: u64| #[trigger]
            screens::centers_of(visible).contains_key(raw) ==> exists|i: int|
                0 <= i < visible.len() && (#[trigger] visible[i]).0.raw == raw && visible[i].1
                    == screens::centers_of(visible)[raw] && forall|j: int|
                    i < j < visible.len() ==> (#[trigger] visible[j]).0.raw != raw,
    decreases visible.len(),
{
    if visible.len() > 0 {
        let before = visible.drop_last();
        law_centers(before);
        let centers = screens::centers_of(visible);
        assert forall|i: int| 0 <= i < visible.len() implies centers.contains_key(
            (#[trigger] visible[i]).0.raw,
        ) by {
            if i < before.len() {
                assert(before[i] == visible[i]);
            }
        }
        assert forall|raw: u64| #[trigger] centers.contains_key(raw) implies exists|i: int|
            0 <= i < visible.len() && (#[trigger] visible[i]).0.raw == raw && visible[i].1
                == centers[raw] && forall|j: int|
                i < j < visible.len() ==> (#[trigger] visible[j]).0.raw != raw by {
            if raw == visible.last().0.raw {
                let last = visible.len() - 1;
                assert(visible[last].0.raw == raw && visible[last].1 == centers[raw]);
            } else {
                assert(screens::centers_of(before).contains_key(raw));
                let i = choose|i: int|
                    0 <= i < before.len() && (#[trigger] before[i]).0.raw == raw && before[i].1
                        == screens::centers_of(before)[raw] && forall|j: int|
                        i < j < before.len() ==> (#[trigger] before[j]).0.raw != raw;
                assert(visible[i].0.raw == raw && visible[i].1 == centers[raw]);
                assert forall|j: int| i < j < visible.len() implies (
                #[trigger] visible[j]).0.raw != raw by {
                    if j < before.len() {
                        assert(before[j] == visible[j]);
                    }
                }
            }
        }
    }
}

/// The spaces on show are those that some screen shows, each with the middle of such
/// a screen.
pub proof fn law_visible_spaces(list: Seq<Screen>)
    ensures
        screens::visible_spaces_of(list).len() <= list.len(),
        forall|space: SpaceId, center: Point|
            #![trigger screens::visible_spaces_of(list).contains((space, center))]
            screens::visible_spaces_of(list).contains((space, center)) <==> exists|j: int|
                0 <= j < list.len() && (#[trigger] list[j]).space == Some(space)
                    && list[j].center == center,
    decreases list.len(),
{
    if list.len() > 0 {
        let before = list.drop_last();
        law_visible_spaces(before);
        let visible = screens::visible_spaces_of(list);
        let visible_before = screens::visible_spaces_of(before);
        assert forall|space: SpaceId, center: Point|
            #![trigger visible.contains((space, center))]
            visible.contains((space, center)) implies exists|j: int|
            0 <= j < list.len() && (#[trigger] list[j]).space == Some(space) && list[j].center
                == center by {
            if visible_before.contains((space, center)) {
                let j = choose|j: int|
                    0 <= j < before.len() && (#[trigger] before[j]).space == Some(space)
                        && before[j].center == center;
                assert(list[j] == before[j]);
            } else {
                assert(list[list.len() - 1].space == Some(space));
            }
        }
        assert forall|space: SpaceId, center: Point, j: int|
            0 <= j < list.len() && (#[trigger] list[j]).space == Some(space) && list[j].center
                == center implies #[trigger] visible.contains((space, center)) by {
            if j < before.len() {
                assert(before[j] == list[j]);
                assert(visible_before.contains((space, center)));
                let k = choose|k: int|
                    0 <= k < visible_before.len() && visible_before[k] == (space, center);
                assert(visible[k] == (space, center));
            } else {
                assert(visible[visible.len() - 1] == (space, center));
            }
        }
    }
}

// Messages.

/// Whether an effect is a message to an actor that is not there.
pub open spec fn goes_nowhere(reactor: Reactor, effect: EffectView) -> bool {
    match effect {
        EffectView::Warp(_) => !reactor.communication_manager.event_tap_tx,
        EffectView::Wm(_) => !reactor.communication_manager.wm_sender,
        EffectView::WmConfigUpdated(_) => !reactor.communication_manager.wm_sender,
        EffectView::StackLineConfigUpdated(_) => !reactor.communication_manager.stack_line_tx,
        EffectView::MenuConfigUpdated(_) => !reactor.menu_manager.menu_tx,
        _ => false,
    }
}

/// Whether no effect of `list` is a message to an actor that is not there.
pub open spec fn all_arrive(reactor: Reactor, list: Seq<EffectView>) -> bool {
    forall|i: int| 0 <= i < list.len() ==> !goes_nowhere(reactor, #[trigger] list[i])
}

/// No command sends a message to an actor that is not there.
pub proof fn law_no_message_to_absent_actors(
    reactor: Reactor,
    command: LayoutCommand,
    config: Config,
    window: WindowId,
    server_id: Option<WindowServerId>,
    selector: DisplaySelector,
    screen: Option<Screen>,
    wm_command: WmCmd,
)
    ensures
        all_arrive(reactor, plan::layout_plan(reactor, command)),
        all_arrive(reactor, plan::config_plan(reactor, config)),
        all_arrive(reactor, plan::focus_window_plan(reactor, window, server_id)),
        all_arrive(reactor, plan::move_mouse_plan(reactor, selector)),
        all_arrive(reactor, plan::focus_display_plan(reactor, screen)),
        all_arrive(reactor, plan::close_window_plan(reactor, server_id)),
        all_arrive(reactor, plan::debug_plan(reactor)),
        all_arrive(reactor, plan::wm_plan(reactor, wm_command)),
        all_arrive(reactor, plan::dismiss_plan(reactor)),
{
    lemma_core_plan_arrives(reactor, command);
}

/// What a layout command itself calls for reaches those it is meant for.
proof fn lemma_core_plan_arrives(reactor: Reactor, command: LayoutCommand)
    ensures
        all_arrive(reactor, plan::core_plan(reactor, command)),
{
}

/// A new configuration is in force before anything else happens, and no other comes into
/// force. Everyone who is told of it is told of that very one. The controller is told
/// exactly where it is there and the key bindings have changed.
pub proof fn law_config_is_announced(reactor: Reactor, config: Config)
    ensures
        plan::config_plan(reactor, config)[0] == EffectView::InstallConfig(config),
        forall|i: int|
            0 < i < plan::config_plan(reactor, config).len()
                ==> !(#[trigger] plan::config_plan(reactor, config)[i] is InstallConfig),
        forall|i: int|
            0 <= i < plan::config_plan(reactor, config).len() ==> match
            #[trigger] plan::config_plan(reactor, config)[i] {
                EffectView::StackLineConfigUpdated(told) => told == config,
                EffectView::MenuConfigUpdated(told) => told == config,
                EffectView::WmConfigUpdated(told) => told == config,
                _ => true,
            },
        reactor.communication_manager.stack_line_tx <==> plan::config_plan(
            reactor,
            config,
        ).contains(EffectView::StackLineConfigUpdated(config)),
        reactor.menu_manager.menu_tx <==> plan::config_plan(reactor, config).contains(
            EffectView::MenuConfigUpdated(config),
        ),
        (reactor.communication_manager.wm_sender && reactor.config_manager.config.keys@
            != config.keys@) <==> plan::config_plan(reactor, config).contains(
            EffectView::WmConfigUpdated(config),
        ),
{
    let whole = plan::config_plan(reactor, config);
    if reactor.communication_manager.stack_line_tx {
        assert(whole[4] == EffectView::StackLineConfigUpdated(config));
    }
    if reactor.menu_manager.menu_tx {
        let at: int = if reactor.communication_manager.stack_line_tx {
            5
        } else {
            4
        };
        assert(whole[at] == EffectView::MenuConfigUpdated(config));
    }
    if reactor.communication_manager.wm_sender && reactor.config_manager.config.keys@
        != config.keys@ {
        assert(whole[whole.len() - 1] == EffectView::WmConfigUpdated(config));
    }
}

/// To take over a configuration that is already in force tells the controller
/// nothing.
pub proof fn law_config_in_force_is_no_news(reactor: Reactor, config: Config, told: Config)
    requires
        reactor.config_manager.config == config,
    ensures
        !plan::config_plan(reactor, config).contains(EffectView::WmConfigUpdated(told)),
{
}

// Focus.

/// A command to focus a display does one thing at most: it focuses a window there,
/// or, where there is none to focus, moves the pointer.
pub proof fn law_focus_display_does_one_thing(reactor: Reactor, screen: Screen)
    ensures
        match screen.space {
            Some(space) => match plan::window_to_focus(reactor, space) {
                Some(window) => plan::focus_display_plan(reactor, Some(screen)) == seq![
                    EffectView::WindowFocused(space, window),
                ],
                None => plan::focus_display_plan(reactor, Some(screen)) == plan::warp_plan(
                    reactor,
                    screen.center,
                ),
            },
            None => plan::focus_display_plan(reactor, Some(screen)) == plan::warp_plan(
                reactor,
                screen.center,
            ),
        },
{
}

} // verus!
