//! What each command is for, said of the fields of the reactor it is given.
//!
//! The laws here speak of the reactor's own lists and maps, of numbers and of the
//! effects that come out, case by case. They hold the plans, and through them the
//! handlers, to what a user of the window manager sees.

use vstd::prelude::*;

use crate::effects::{
    Config, Effect, EffectView, EngineRequestView, LayoutCommand, MetricsCommand,
    RaiseRequestView, ResponseSource, WmCmd, WorkspaceSwitchManager, WorkspaceSwitchState,
};
use crate::geometry;
use crate::geometry::{Direction, MonitorDirection, Point};
use crate::laws;
use crate::plan;
use crate::plan::{MonitorMove, MoveRefusal, MoveReport};
use crate::reactor::Reactor;
use crate::screens;
use crate::screens::{DisplaySelector, FocusNeighbours, Screen, SpaceId, SpaceManager};
use crate::windows;
use crate::windows::{
    AppHandle, LayoutEngine, MovableWindow, WindowId, WindowManager, WindowServerId,
};

verus! {

// Words that the laws use.

/// How far a point lies out in `direction`, as a number that grows that way.
pub open spec fn reach(direction: Direction, point: Point) -> int {
    match direction {
        Direction::Left => -point.x,
        Direction::Right => point.x as int,
        Direction::Up => point.y as int,
        Direction::Down => -point.y,
    }
}

/// The windows that the window server has a number for.
pub open spec fn has_server_id(manager: WindowManager) -> spec_fn(WindowId) -> bool {
    |w: WindowId|
        manager.windows@.contains_key(windows::window_key(w))
            && manager.windows@[windows::window_key(w)].window_server_id is Some
}

/// The move of a window that the window server has a number for.
pub open spec fn moved_to(manager: WindowManager, to: SpaceId) -> spec_fn(
    WindowId,
) -> EffectView {
    |w: WindowId|
        EffectView::MoveWindowToSpace(
            MovableWindow {
                window: w,
                server_id: manager.windows@[windows::window_key(w)].window_server_id->0,
            },
            to.raw,
        )
}

/// The screens that show a space.
pub open spec fn shows_a_space() -> spec_fn(Screen) -> bool {
    |s: Screen| s.space is Some
}

/// The space that a screen shows and the middle of the screen.
pub open spec fn shown() -> spec_fn(Screen) -> (SpaceId, Point) {
    |s: Screen| (s.space->0, s.center)
}

/// How a layout command that is no switch ends: the record notes that no switch is
/// under way and is otherwise as before, and a response for no space is acted on.
pub open spec fn ends_without_switch(reactor: Reactor, response: ResponseSource) -> Seq<
    EffectView,
> {
    seq![
        EffectView::RecordSwitch(
            WorkspaceSwitchManager {
                workspace_switch_generation:
                    reactor.workspace_switch_manager.workspace_switch_generation,
                active_workspace_switch: reactor.workspace_switch_manager.active_workspace_switch,
                workspace_switch_state: WorkspaceSwitchState::Inactive,
            },
        ),
        EffectView::LayoutResponse { response, workspace_space: None },
    ]
}

/// Whether `target` is the screen that `direction` leads to from `current`, as the
/// searches for a screen find it.
pub open spec fn leads_to(
    manager: SpaceManager,
    current: Screen,
    direction: MonitorDirection,
    wrap_around: bool,
    target: Option<Screen>,
) -> bool {
    &&& direction == MonitorDirection::Left ==> target == plan::adjacent_screen(
        manager,
        current,
        Direction::Left,
        wrap_around,
    )
    &&& direction == MonitorDirection::Right ==> target == plan::adjacent_screen(
        manager,
        current,
        Direction::Right,
        wrap_around,
    )
    &&& direction == MonitorDirection::Next ==> target == plan::next_screen(
        manager.screens@,
        current,
        wrap_around,
    )
}

// The reactor and its effects.

/// The plan lists the views of the effects called for, one for one and in order.
pub proof fn law_plan_lists_the_effects(reactor: Reactor)
    ensures
        reactor.plan().len() == reactor.effects@.len(),
        forall|i: int|
            0 <= i < reactor.effects@.len() ==> #[trigger] reactor.plan()[i]
                == reactor.effects@[i]@,
{
}

/// Two reactors that differ in their effects at most agree in every other part.
pub proof fn law_nothing_else_changes(a: Reactor, b: Reactor)
    ensures
        a.observes_same(b) <==> (a.space_manager == b.space_manager && a.window_manager
            == b.window_manager && a.app_manager == b.app_manager && a.layout_engine
            == b.layout_engine && a.communication_manager == b.communication_manager
            && a.menu_manager == b.menu_manager),
        a.same_but_effects(b) <==> (a.observes_same(b) && a.workspace_switch_manager
            == b.workspace_switch_manager && a.config_manager == b.config_manager),
{
}

/// The view of an effect is that effect, with what its collections hold in their place.
pub proof fn law_view_keeps_the_effect(effect: Effect)
    ensures
        match effect {
            Effect::StoreFloatingPositions(s) => effect@ == EffectView::StoreFloatingPositions(s),
            Effect::RecordSwitch(r) => effect@ == EffectView::RecordSwitch(r),
            Effect::InstallConfig(c) => effect@ == EffectView::InstallConfig(c),
            Effect::VirtualWorkspaceCommand { space, command } => effect@ == (
            EffectView::VirtualWorkspaceCommand { space, command }),
            Effect::EngineCommand(q) => effect@ == EffectView::EngineCommand(
                EngineRequestView {
                    space: q.space,
                    visible_spaces: q.visible_spaces@,
                    visible_space_centers: q.visible_space_centers@,
                    command: q.command,
                },
            ),
            Effect::LayoutResponse { response, workspace_space } => effect@ == (
            EffectView::LayoutResponse { response, workspace_space }),
            Effect::Metrics(c) => effect@ == EffectView::Metrics(c),
            Effect::SetLayoutSettings(t) => effect@ == EffectView::SetLayoutSettings(t),
            Effect::UpdateVirtualWorkspaceSettings(t) => effect@
                == EffectView::UpdateVirtualWorkspaceSettings(t),
            Effect::UpdateDragConfig(t) => effect@ == EffectView::UpdateDragConfig(t),
            Effect::StackLineConfigUpdated(c) => effect@ == EffectView::StackLineConfigUpdated(c),
            Effect::MenuConfigUpdated(c) => effect@ == EffectView::MenuConfigUpdated(c),
            Effect::WmConfigUpdated(c) => effect@ == EffectView::WmConfigUpdated(c),
            Effect::UpdateLayout(a, b) => effect@ == EffectView::UpdateLayout(a, b),
            Effect::DebugTree(s, t, f) => effect@ == EffectView::DebugTree(s, t, f),
            Effect::Print { text, end } => effect@ == (EffectView::Print { text, end }),
            Effect::Exit(c) => effect@ == EffectView::Exit(c),
            Effect::SwitchSpace(d) => effect@ == EffectView::SwitchSpace(d),
            Effect::WindowFocused(s, w) => effect@ == EffectView::WindowFocused(s, w),
            Effect::Raise(q) => effect@ == EffectView::Raise(
                RaiseRequestView {
                    raise_windows: q.raise_windows@,
                    focus_window: q.focus_window,
                    app_handles: q.app_handles@,
                },
            ),
            Effect::MakeKeyWindow(p, w) => effect@ == EffectView::MakeKeyWindow(p, w),
            Effect::Wm(c) => effect@ == EffectView::Wm(c),
            Effect::SetMissionControlActive(a) => effect@ == EffectView::SetMissionControlActive(
                a,
            ),
            Effect::Warp(p) => effect@ == EffectView::Warp(p),
            Effect::CloseWindow(w) => effect@ == EffectView::CloseWindow(w),
            Effect::MoveWindowToSpace(w, s) => effect@ == EffectView::MoveWindowToSpace(w, s),
        },
{
}

// Directions and look-ups.

/// A point lies towards a direction exactly where it reaches out further that way, and
/// the opposite direction turns the sign of how far a point reaches.
pub proof fn law_sides(direction: Direction, origin: Point, point: Point)
    ensures
        geometry::lies_towards(direction, origin, point) <==> reach(direction, point) > reach(
            direction,
            origin,
        ),
        reach(geometry::opposite_of(direction), point) == -reach(direction, point),
{
}

/// Opposite directions go together in two pairs.
pub proof fn law_opposite_pairs()
    ensures
        geometry::opposite_of(Direction::Left) == Direction::Right,
        geometry::opposite_of(Direction::Right) == Direction::Left,
        geometry::opposite_of(Direction::Up) == Direction::Down,
        geometry::opposite_of(Direction::Down) == Direction::Up,
{
}

/// Each direction has the neighbour that is kept for it.
pub proof fn law_neighbours(neighbours: FocusNeighbours)
    ensures
        neighbours.towards(Direction::Left) == neighbours.left,
        neighbours.towards(Direction::Right) == neighbours.right,
        neighbours.towards(Direction::Up) == neighbours.up,
        neighbours.towards(Direction::Down) == neighbours.down,
{
}

/// A look-up gives a value exactly where the key is there, and then the value under it.
pub proof fn law_lookup<K, V>(map: Map<K, V>, key: K, value: V)
    ensures
        screens::lookup(map, key) == Some(value) <==> map.contains_key(key) && map[key] == value,
        screens::lookup(map, key) is None <==> !map.contains_key(key),
{
}

/// What is known of a window is what is kept under its key.
pub proof fn law_window_state(manager: WindowManager, window: WindowId)
    ensures
        match manager.state_of(window) {
            Some(state) => manager.windows@.contains_key(windows::window_key(window))
                && manager.windows@[windows::window_key(window)] == state,
            None => !manager.windows@.contains_key(windows::window_key(window)),
        },
{
}

/// The windows of a space's active workspace are those kept under the space's number,
/// and none where nothing is kept.
pub proof fn law_active_windows(engine: LayoutEngine, space: SpaceId)
    ensures
        engine.active_windows@.contains_key(space.raw) ==> engine.active_on(space)
            == engine.active_windows@[space.raw]@,
        !engine.active_windows@.contains_key(space.raw) ==> engine.active_on(space).len() == 0,
{
}

/// Four commands are switches: to the next workspace, to the one before, to a given one
/// and to the last one.
pub proof fn law_which_commands_switch(command: LayoutCommand)
    ensures
        command.switches() <==> match command {
            LayoutCommand::NextWorkspace(_) => true,
            LayoutCommand::PrevWorkspace(_) => true,
            LayoutCommand::SwitchToWorkspace(_) => true,
            LayoutCommand::SwitchToLastWorkspace => true,
            LayoutCommand::CreateWorkspace => false,
            LayoutCommand::MoveWindowToWorkspace { .. } => false,
            LayoutCommand::MoveWorkspaceToMonitor { .. } => false,
            LayoutCommand::MoveNodeToMonitor { .. } => false,
            LayoutCommand::Tree(_) => false,
        },
{
}

/// The spaces on show are those of the screens that show one, with the middles of these
/// screens, in the order of the screens.
pub proof fn law_spaces_on_show(list: Seq<Screen>)
    ensures
        screens::visible_spaces_of(list) == list.filter(shows_a_space()).map_values(shown()),
    decreases list.len(),
{
    reveal(Seq::filter);
    if list.len() > 0 {
        law_spaces_on_show(list.drop_last());
    }
    assert(screens::visible_spaces_of(list) =~= list.filter(shows_a_space()).map_values(shown()));
}

// Searches for a screen.

/// A search to one side gives the neighbour that focus has there, wherever the current
/// screen is and whether or not it may wrap around.
pub proof fn law_search_gives_the_neighbour(
    manager: SpaceManager,
    current: Screen,
    wrap_around: bool,
    neighbour: Screen,
)
    ensures
        manager.focus_neighbours.left == Some(neighbour) ==> plan::adjacent_screen(
            manager,
            current,
            Direction::Left,
            wrap_around,
        ) == Some(neighbour),
        manager.focus_neighbours.right == Some(neighbour) ==> plan::adjacent_screen(
            manager,
            current,
            Direction::Right,
            wrap_around,
        ) == Some(neighbour),
        manager.focus_neighbours.up == Some(neighbour) ==> plan::adjacent_screen(
            manager,
            current,
            Direction::Up,
            wrap_around,
        ) == Some(neighbour),
        manager.focus_neighbours.down == Some(neighbour) ==> plan::adjacent_screen(
            manager,
            current,
            Direction::Down,
            wrap_around,
        ) == Some(neighbour),
{
}

/// Without wrap-around, a search to a side where focus has no neighbour gives nothing.
pub proof fn law_search_without_neighbour(manager: SpaceManager, current: Screen)
    ensures
        manager.focus_neighbours.left is None ==> plan::adjacent_screen(
            manager,
            current,
            Direction::Left,
            false,
        ) is None,
        manager.focus_neighbours.right is None ==> plan::adjacent_screen(
            manager,
            current,
            Direction::Right,
            false,
        ) is None,
        manager.focus_neighbours.up is None ==> plan::adjacent_screen(
            manager,
            current,
            Direction::Up,
            false,
        ) is None,
        manager.focus_neighbours.down is None ==> plan::adjacent_screen(
            manager,
            current,
            Direction::Down,
            false,
        ) is None,
{
}

/// Whether the screen in place `k` is the opposite end for a search in `direction`: of
/// the screens other than `current` that reach out less far than it, it reaches out the
/// least, and the ones listed behind it reach out further than it does.
pub open spec fn is_opposite_end(
    list: Seq<Screen>,
    current: Screen,
    direction: Direction,
    k: int,
) -> bool {
    &&& 0 <= k < list.len()
    &&& list[k].screen_id != current.screen_id
    &&& reach(direction, list[k].center) < reach(direction, current.center)
    &&& forall|j: int|
        0 <= j < list.len() && #[trigger] list[j].screen_id != current.screen_id ==> reach(
            direction,
            list[j].center,
        ) >= reach(direction, list[k].center)
    &&& forall|j: int|
        k < j < list.len() && #[trigger] list[j].screen_id != current.screen_id ==> reach(
            direction,
            list[j].center,
        ) > reach(direction, list[k].center)
}

/// Whether the screen in place `k` is the first one other than `current`.
pub open spec fn is_first_other(list: Seq<Screen>, current: Screen, k: int) -> bool {
    &&& 0 <= k < list.len()
    &&& list[k].screen_id != current.screen_id
    &&& forall|j: int| 0 <= j < k ==> #[trigger] list[j].screen_id == current.screen_id
}

/// With wrap-around, a search to a side where focus has no neighbour goes to the opposite
/// end. Where no other screen lies that way it goes to the first other screen, and where
/// there is no other screen it gives nothing.
pub proof fn law_search_wraps(manager: SpaceManager, current: Screen, direction: Direction)
    requires
        direction == Direction::Left ==> manager.focus_neighbours.left is None,
        direction == Direction::Right ==> manager.focus_neighbours.right is None,
        direction == Direction::Up ==> manager.focus_neighbours.up is None,
        direction == Direction::Down ==> manager.focus_neighbours.down is None,
    ensures
        match plan::adjacent_screen(manager, current, direction, true) {
            Some(screen) => exists|k: int|
                #![trigger manager.screens@[k]]
                0 <= k < manager.screens@.len() && screen == manager.screens@[k] && (
                is_opposite_end(manager.screens@, current, direction, k) || (is_first_other(
                    manager.screens@,
                    current,
                    k,
                ) && forall|j: int|
                    0 <= j < manager.screens@.len() && #[trigger] manager.screens@[j].screen_id
                        != current.screen_id ==> reach(direction, manager.screens@[j].center)
                        >= reach(direction, current.center))),
            None => forall|j: int|
                0 <= j < manager.screens@.len() ==> #[trigger] manager.screens@[j].screen_id
                    == current.screen_id,
        },
{
    let list = manager.screens@;
    let back = geometry::opposite_of(direction);
    let behind = plan::others_towards(current.screen_id, current.center, back);
    let other = screens::lacks_id(current.screen_id);
    screens::lemma_furthest_where(list, behind, back);
    screens::lemma_first_where(list, other);
    assert forall|j: int|
        0 <= j < list.len() && #[trigger] list[j].screen_id != current.screen_id implies other(
        list[j],
    ) && (behind(list[j]) || reach(direction, list[j].center) >= reach(
        direction,
        current.center,
    )) by {}
    assert forall|j: int| 0 <= j < list.len() && !other(#[trigger] list[j]) implies
        list[j].screen_id == current.screen_id by {}
    match screens::furthest_where(list, behind, back) {
        Some(k) => {
            assert(behind(list[k]));
            assert(is_opposite_end(list, current, direction, k));
        },
        None => match screens::first_where(list, other) {
            Some(k) => {
                assert(other(list[k]));
                assert(is_first_other(list, current, k));
            },
            None => {},
        },
    }
}

/// The next screen is the one listed behind the first that has the current one's number.
/// The last one listed is followed by the first one with wrap-around, and by none without
/// it. A lone screen has no next one.
pub proof fn law_next_screen(list: Seq<Screen>, current: Screen, wrap_around: bool, at: int)
    requires
        0 <= at < list.len(),
        list[at].screen_id == current.screen_id,
        forall|j: int| 0 <= j < at ==> #[trigger] list[j].screen_id != current.screen_id,
    ensures
        at < list.len() - 1 ==> plan::next_screen(list, current, wrap_around) == Some(
            list[at + 1],
        ),
        at == list.len() - 1 && list.len() > 1 && wrap_around ==> plan::next_screen(
            list,
            current,
            wrap_around,
        ) == Some(list[0]),
        at == list.len() - 1 && !wrap_around ==> plan::next_screen(
            list,
            current,
            wrap_around,
        ) is None,
        list.len() == 1 ==> plan::next_screen(list, current, wrap_around) is None,
{
    let same = screens::has_id(current.screen_id);
    screens::lemma_first_where(list, same);
    assert(same(list[at]));
    assert forall|j: int| 0 <= j < at implies !same(#[trigger] list[j]) by {}
}

/// A screen that is not listed has no next one.
pub proof fn law_no_next_screen(list: Seq<Screen>, current: Screen, wrap_around: bool)
    requires
        forall|j: int|
            0 <= j < list.len() ==> #[trigger] list[j].screen_id != current.screen_id,
    ensures
        plan::next_screen(list, current, wrap_around) is None,
{
    screens::lemma_first_where(list, screens::has_id(current.screen_id));
}

/// The screen in place `i` is meant by the number `i`, and a number beyond the list means
/// none.
pub proof fn law_selected_by_index(manager: SpaceManager, i: usize)
    ensures
        i < manager.screens@.len() ==> plan::selected_screen(manager, DisplaySelector::Index(i))
            == Some(manager.screens@[i as int]),
        i >= manager.screens@.len() ==> plan::selected_screen(
            manager,
            DisplaySelector::Index(i),
        ) is None,
{
}

/// The first screen of a unique name is meant by that name, letter for letter, and a name
/// that no screen has means none.
pub proof fn law_selected_by_uuid(manager: SpaceManager, uuid: String)
    ensures
        match plan::selected_screen(manager, DisplaySelector::Uuid(uuid)) {
            Some(screen) => exists|k: int|
                #![trigger manager.screens@[k]]
                0 <= k < manager.screens@.len() && screen == manager.screens@[k]
                    && screen.display_uuid@ == uuid@ && forall|j: int|
                    0 <= j < k ==> #[trigger] manager.screens@[j].display_uuid@ != uuid@,
            None => forall|j: int|
                0 <= j < manager.screens@.len() ==> #[trigger] manager.screens@[j].display_uuid@
                    != uuid@,
        },
{
    let list = manager.screens@;
    let named = screens::has_uuid(uuid@);
    screens::lemma_first_where(list, named);
    assert forall|j: int| 0 <= j < list.len() implies named(#[trigger] list[j]) == (
    list[j].display_uuid@ == uuid@) by {}
}

// Moves to another monitor.

/// The windows that can be moved are those that have a number with the window server, in
/// the order of the workspace.
proof fn lemma_moves(manager: WindowManager, list: Seq<WindowId>, to: SpaceId)
    ensures
        plan::move_windows_plan(plan::movable_windows_of(manager, list), to) == list.filter(
            has_server_id(manager),
        ).map_values(moved_to(manager, to)),
    decreases list.len(),
{
    reveal(Seq::filter);
    let moves = plan::move_windows_plan(plan::movable_windows_of(manager, list), to);
    let expected = list.filter(has_server_id(manager)).map_values(moved_to(manager, to));
    if list.len() > 0 {
        let before = list.drop_last();
        let moves_before = plan::move_windows_plan(plan::movable_windows_of(manager, before), to);
        let kept_before = before.filter(has_server_id(manager));
        lemma_moves(manager, before, to);
        assert(moves_before == kept_before.map_values(moved_to(manager, to)));
        if has_server_id(manager)(list.last()) {
            let last = moved_to(manager, to)(list.last());
            assert(list.filter(has_server_id(manager)) == kept_before.push(list.last()));
            assert(moves =~= moves_before.push(last));
            assert(expected =~= moves_before.push(last));
        } else {
            assert(moves == moves_before);
            assert(expected == moves_before);
        }
    }
    assert(moves =~= expected);
}

/// A command to move the workspace takes the windows of the active workspace of the space
/// that commands act on, in their order and each once, to the space of the screen that the
/// direction leads to. Then the pointer goes to the middle of that screen, if the event tap
/// is there. It is reported with that route and the number of the workspace's windows.
pub proof fn law_workspace_goes_where_the_direction_leads(
    reactor: Reactor,
    direction: MonitorDirection,
    wrap_around: bool,
    from: SpaceId,
    target: Screen,
    to: SpaceId,
)
    requires
        reactor.space_manager.command_space == Some(from),
        reactor.space_manager.screens_by_space@.contains_key(from.raw),
        leads_to(
            reactor.space_manager,
            reactor.space_manager.screens_by_space@[from.raw],
            direction,
            wrap_around,
            Some(target),
        ),
        target.space == Some(to),
        to != from,
        reactor.layout_engine.active_windows@.contains_key(from.raw),
        reactor.layout_engine.active_windows@[from.raw]@.len() > 0,
    ensures
        plan::layout_plan(
            reactor,
            LayoutCommand::MoveWorkspaceToMonitor { direction, wrap_around },
        ) == reactor.layout_engine.active_windows@[from.raw]@.filter(
            has_server_id(reactor.window_manager),
        ).map_values(moved_to(reactor.window_manager, to)) + (
        if reactor.communication_manager.event_tap_tx {
            seq![EffectView::Warp(target.center)]
        } else {
            Seq::empty()
        }) + ends_without_switch(reactor, ResponseSource::Empty),
        plan::move_report_of(
            reactor,
            LayoutCommand::MoveWorkspaceToMonitor { direction, wrap_around },
        ) == Some(
            MoveReport::Workspace {
                route: MonitorMove { from, to, center: target.center },
                windows: reactor.layout_engine.active_windows@[from.raw]@.len() as usize,
            },
        ),
        plan::monitor_move_of(reactor.space_manager, direction, wrap_around) == Ok::<
            MonitorMove,
            MoveRefusal,
        >(MonitorMove { from, to, center: target.center }),
{
    let list = reactor.layout_engine.active_windows@[from.raw]@;
    lemma_moves(reactor.window_manager, list, to);
    let command = LayoutCommand::MoveWorkspaceToMonitor { direction, wrap_around };
    assert(plan::layout_plan(reactor, command) =~= list.filter(
        has_server_id(reactor.window_manager),
    ).map_values(moved_to(reactor.window_manager, to)) + (
    if reactor.communication_manager.event_tap_tx {
        seq![EffectView::Warp(target.center)]
    } else {
        Seq::empty()
    }) + ends_without_switch(reactor, ResponseSource::Empty));
}

/// A workspace that is moved to the left goes to the space of focus's neighbour on the
/// left, and one that is moved to the right to that of the neighbour on the right, and the
/// pointer goes to the middle of that very screen.
pub proof fn law_workspace_goes_to_the_neighbour(
    reactor: Reactor,
    direction: MonitorDirection,
    wrap_around: bool,
    from: SpaceId,
    neighbour: Screen,
    to: SpaceId,
    window: MovableWindow,
    space: u64,
    point: Point,
)
    requires
        reactor.space_manager.command_space == Some(from),
        reactor.space_manager.screens_by_space@.contains_key(from.raw),
        direction == MonitorDirection::Left && reactor.space_manager.focus_neighbours.left
            == Some(neighbour) || direction == MonitorDirection::Right
            && reactor.space_manager.focus_neighbours.right == Some(neighbour),
        neighbour.space == Some(to),
        to != from,
        reactor.layout_engine.active_windows@.contains_key(from.raw),
        reactor.layout_engine.active_windows@[from.raw]@.len() > 0,
    ensures
        plan::layout_plan(
            reactor,
            LayoutCommand::MoveWorkspaceToMonitor { direction, wrap_around },
        ).contains(EffectView::MoveWindowToSpace(window, space)) <==> {
            &&& space == to.raw
            &&& reactor.layout_engine.active_windows@[from.raw]@.contains(window.window)
            &&& reactor.window_manager.windows@.contains_key(windows::window_key(window.window))
            &&& reactor.window_manager.windows@[windows::window_key(
                window.window,
            )].window_server_id == Some(window.server_id)
        },
        plan::layout_plan(
            reactor,
            LayoutCommand::MoveWorkspaceToMonitor { direction, wrap_around },
        ).contains(EffectView::Warp(point)) <==> reactor.communication_manager.event_tap_tx
            && point == neighbour.center,
{
    let command = LayoutCommand::MoveWorkspaceToMonitor { direction, wrap_around };
    let whole = plan::layout_plan(reactor, command);
    let list = reactor.layout_engine.active_windows@[from.raw]@;
    let manager = reactor.window_manager;
    let kept = list.filter(has_server_id(manager));
    let moves = kept.map_values(moved_to(manager, to));
    let warp: Seq<EffectView> = if reactor.communication_manager.event_tap_tx {
        seq![EffectView::Warp(neighbour.center)]
    } else {
        Seq::empty()
    };
    law_workspace_goes_where_the_direction_leads(
        reactor,
        direction,
        wrap_around,
        from,
        neighbour,
        to,
    );
    assert(whole == moves + warp + ends_without_switch(reactor, ResponseSource::Empty));
    let one = EffectView::MoveWindowToSpace(window, space);
    if whole.contains(one) {
        let i = choose|i: int| 0 <= i < whole.len() && whole[i] == one;
        assert(i < moves.len());
        assert(whole[i] == moves[i]);
        assert(moves[i] == moved_to(manager, to)(kept[i]));
        assert(has_server_id(manager)(kept[i]));
        assert(kept.contains(kept[i]));
        lemma_filter_subset(list, has_server_id(manager), kept[i]);
    }
    if space == to.raw && list.contains(window.window) && manager.windows@.contains_key(
        windows::window_key(window.window),
    ) && manager.windows@[windows::window_key(window.window)].window_server_id == Some(
        window.server_id,
    ) {
        assert(has_server_id(manager)(window.window));
        lemma_filter_keeps(list, has_server_id(manager), window.window);
        let i = choose|i: int| 0 <= i < kept.len() && kept[i] == window.window;
        assert(moves[i] == one);
        assert(whole[i] == one);
    }
    if whole.contains(EffectView::Warp(point)) {
        let i = choose|i: int| 0 <= i < whole.len() && whole[i] == EffectView::Warp(point);
        if i < moves.len() {
            assert(whole[i] == moves[i]);
            assert(moves[i] == moved_to(manager, to)(kept[i]));
        }
    }
    if reactor.communication_manager.event_tap_tx {
        assert(whole[moves.len() as int] == EffectView::Warp(neighbour.center));
    }
}

/// What a filter lets through was there before.
proof fn lemma_filter_subset(list: Seq<WindowId>, p: spec_fn(WindowId) -> bool, w: WindowId)
    requires
        list.filter(p).contains(w),
    ensures
        list.contains(w),
        p(w),
    decreases list.len(),
{
    reveal(Seq::filter);
    if list.len() > 0 {
        let before = list.drop_last();
        if before.filter(p).contains(w) {
            lemma_filter_subset(before, p, w);
            let i = choose|i: int| 0 <= i < before.len() && before[i] == w;
            assert(list[i] == w);
        } else {
            assert(list[list.len() - 1] == w);
        }
    }
}

/// What meets the condition passes a filter.
proof fn lemma_filter_keeps(list: Seq<WindowId>, p: spec_fn(WindowId) -> bool, w: WindowId)
    requires
        list.contains(w),
        p(w),
    ensures
        list.filter(p).contains(w),
    decreases list.len(),
{
    reveal(Seq::filter);
    let before = list.drop_last();
    let kept = before.filter(p);
    if before.contains(w) {
        lemma_filter_keeps(before, p, w);
        let i = choose|i: int| 0 <= i < kept.len() && kept[i] == w;
        assert(list.filter(p)[i] == w);
    } else {
        let i = choose|i: int| 0 <= i < list.len() && list[i] == w;
        if i < before.len() {
            assert(before[i] == w);
        }
        assert(list.last() == w);
        assert(list.filter(p)[kept.len() as int] == w);
    }
}

/// A command to move the main window moves that window, if the window server has a number
/// for it, to the space of the screen that the direction leads to, and does nothing else.
/// It is reported with that window and that route.
pub proof fn law_window_goes_where_the_direction_leads(
    reactor: Reactor,
    direction: MonitorDirection,
    wrap_around: bool,
    window: WindowId,
    from: SpaceId,
    target: Screen,
    to: SpaceId,
)
    requires
        reactor.window_manager.main_window == Some(window),
        reactor.space_manager.command_space == Some(from),
        reactor.space_manager.screens_by_space@.contains_key(from.raw),
        leads_to(
            reactor.space_manager,
            reactor.space_manager.screens_by_space@[from.raw],
            direction,
            wrap_around,
            Some(target),
        ),
        target.space == Some(to),
        to != from,
    ensures
        plan::layout_plan(
            reactor,
            LayoutCommand::MoveNodeToMonitor { direction, wrap_around },
        ) == (if has_server_id(reactor.window_manager)(window) {
            seq![moved_to(reactor.window_manager, to)(window)]
        } else {
            Seq::empty()
        }) + ends_without_switch(reactor, ResponseSource::Empty),
        plan::move_report_of(
            reactor,
            LayoutCommand::MoveNodeToMonitor { direction, wrap_around },
        ) == Some(
            MoveReport::Window {
                route: MonitorMove { from, to, center: target.center },
                window,
            },
        ),
{
    assert(plan::layout_plan(
        reactor,
        LayoutCommand::MoveNodeToMonitor { direction, wrap_around },
    ) =~= (if has_server_id(reactor.window_manager)(window) {
        seq![moved_to(reactor.window_manager, to)(window)]
    } else {
        Seq::empty()
    }) + ends_without_switch(reactor, ResponseSource::Empty));
}

/// The main window, kept under a number of the window server, goes to the space of focus's
/// neighbour on the left or on the right, whichever is asked for.
pub proof fn law_window_goes_to_the_neighbour(
    reactor: Reactor,
    direction: MonitorDirection,
    wrap_around: bool,
    movable: MovableWindow,
    from: SpaceId,
    neighbour: Screen,
    to: SpaceId,
)
    requires
        reactor.window_manager.main_window == Some(movable.window),
        reactor.window_manager.windows@.contains_key(windows::window_key(movable.window)),
        reactor.window_manager.windows@[windows::window_key(movable.window)].window_server_id
            == Some(movable.server_id),
        reactor.space_manager.command_space == Some(from),
        reactor.space_manager.screens_by_space@.contains_key(from.raw),
        direction == MonitorDirection::Left && reactor.space_manager.focus_neighbours.left
            == Some(neighbour) || direction == MonitorDirection::Right
            && reactor.space_manager.focus_neighbours.right == Some(neighbour),
        neighbour.space == Some(to),
        to != from,
    ensures
        plan::layout_plan(
            reactor,
            LayoutCommand::MoveNodeToMonitor { direction, wrap_around },
        ) == seq![EffectView::MoveWindowToSpace(movable, to.raw)] + ends_without_switch(
            reactor,
            ResponseSource::Empty,
        ),
{
    law_window_goes_where_the_direction_leads(
        reactor,
        direction,
        wrap_around,
        movable.window,
        from,
        neighbour,
        to,
    );
}

/// Both kinds of move do nothing, and say why, where there is no space for commands, the
/// space is on no screen, the direction leads to no screen, that screen shows no space, or
/// it shows the space that is to be left. The first of these that holds is the reason.
pub proof fn law_move_is_refused(
    reactor: Reactor,
    direction: MonitorDirection,
    wrap_around: bool,
    from: SpaceId,
    target: Screen,
    reason: MoveRefusal,
)
    requires
        match reason {
            MoveRefusal::NoCurrentSpace => reactor.space_manager.command_space is None,
            MoveRefusal::NoCurrentScreen => reactor.space_manager.command_space == Some(from)
                && !reactor.space_manager.screens_by_space@.contains_key(from.raw),
            MoveRefusal::NoTargetMonitor => reactor.space_manager.command_space == Some(from)
                && reactor.space_manager.screens_by_space@.contains_key(from.raw) && leads_to(
                reactor.space_manager,
                reactor.space_manager.screens_by_space@[from.raw],
                direction,
                wrap_around,
                None,
            ),
            MoveRefusal::NoTargetSpace | MoveRefusal::AlreadyThere =>
                reactor.space_manager.command_space == Some(from)
                && reactor.space_manager.screens_by_space@.contains_key(from.raw) && leads_to(
                reactor.space_manager,
                reactor.space_manager.screens_by_space@[from.raw],
                direction,
                wrap_around,
                Some(target),
            ) && target.space == if reason == MoveRefusal::AlreadyThere {
                Some(from)
            } else {
                None
            },
            _ => false,
        },
    ensures
        plan::monitor_move_of(reactor.space_manager, direction, wrap_around) == Err::<
            MonitorMove,
            MoveRefusal,
        >(reason),
        plan::move_report_of(
            reactor,
            LayoutCommand::MoveWorkspaceToMonitor { direction, wrap_around },
        ) == Some(MoveReport::Refused(reason)),
        plan::layout_plan(
            reactor,
            LayoutCommand::MoveWorkspaceToMonitor { direction, wrap_around },
        ) == ends_without_switch(reactor, ResponseSource::Empty),
        reactor.window_manager.main_window is Some ==> plan::move_report_of(
            reactor,
            LayoutCommand::MoveNodeToMonitor { direction, wrap_around },
        ) == Some(MoveReport::Refused(reason)),
        plan::layout_plan(
            reactor,
            LayoutCommand::MoveNodeToMonitor { direction, wrap_around },
        ) == ends_without_switch(reactor, ResponseSource::Empty),
{
}

/// Without a main window, a command to move it does nothing, for that reason, whatever else
/// may be wanting.
pub proof fn law_no_window_to_move(
    reactor: Reactor,
    direction: MonitorDirection,
    wrap_around: bool,
)
    requires
        reactor.window_manager.main_window is None,
    ensures
        plan::move_report_of(
            reactor,
            LayoutCommand::MoveNodeToMonitor { direction, wrap_around },
        ) == Some(MoveReport::Refused(MoveRefusal::NoWindow)),
        plan::layout_plan(
            reactor,
            LayoutCommand::MoveNodeToMonitor { direction, wrap_around },
        ) == ends_without_switch(reactor, ResponseSource::Empty),
{
}

/// A workspace without windows stays, and the pointer with it, for that reason, where the
/// direction leads to another space.
pub proof fn law_no_workspace_to_move(
    reactor: Reactor,
    direction: MonitorDirection,
    wrap_around: bool,
    from: SpaceId,
    target: Screen,
    to: SpaceId,
)
    requires
        reactor.space_manager.command_space == Some(from),
        reactor.space_manager.screens_by_space@.contains_key(from.raw),
        leads_to(
            reactor.space_manager,
            reactor.space_manager.screens_by_space@[from.raw],
            direction,
            wrap_around,
            Some(target),
        ),
        target.space == Some(to),
        to != from,
        reactor.layout_engine.active_windows@.contains_key(from.raw)
            ==> reactor.layout_engine.active_windows@[from.raw]@.len() == 0,
    ensures
        plan::move_report_of(
            reactor,
            LayoutCommand::MoveWorkspaceToMonitor { direction, wrap_around },
        ) == Some(MoveReport::Refused(MoveRefusal::NothingToMove)),
        plan::layout_plan(
            reactor,
            LayoutCommand::MoveWorkspaceToMonitor { direction, wrap_around },
        ) == ends_without_switch(reactor, ResponseSource::Empty),
{
}

/// Only the two commands to move to a monitor are reported on.
pub proof fn law_only_moves_are_reported(reactor: Reactor, command: LayoutCommand)
    ensures
        plan::move_report_of(reactor, command) is Some <==> (
        command is MoveWorkspaceToMonitor || command is MoveNodeToMonitor),
{
}

/// What each handler of a move calls for by itself is what the layout command calls for
/// before its end.
pub proof fn law_moves_by_themselves(
    reactor: Reactor,
    direction: MonitorDirection,
    wrap_around: bool,
)
    ensures
        plan::layout_plan(
            reactor,
            LayoutCommand::MoveWorkspaceToMonitor { direction, wrap_around },
        ) == plan::workspace_to_monitor_plan(reactor, direction, wrap_around)
            + ends_without_switch(reactor, ResponseSource::Empty),
        plan::layout_plan(
            reactor,
            LayoutCommand::MoveNodeToMonitor { direction, wrap_around },
        ) == plan::node_to_monitor_plan(reactor, direction, wrap_around) + ends_without_switch(
            reactor,
            ResponseSource::Empty,
        ),
{
    assert(plan::layout_plan(
        reactor,
        LayoutCommand::MoveWorkspaceToMonitor { direction, wrap_around },
    ) =~= plan::workspace_to_monitor_plan(reactor, direction, wrap_around)
        + ends_without_switch(reactor, ResponseSource::Empty));
    assert(plan::layout_plan(
        reactor,
        LayoutCommand::MoveNodeToMonitor { direction, wrap_around },
    ) =~= plan::node_to_monitor_plan(reactor, direction, wrap_around) + ends_without_switch(
        reactor,
        ResponseSource::Empty,
    ));
}

// Layout commands.

/// A switch gets the number after the latest one, or zero behind the greatest, and becomes
/// the active switch. Any other command leaves the numbers. A switch is under way after a
/// switch and after no other command.
pub proof fn law_record_after_a_command(
    record: WorkspaceSwitchManager,
    command: LayoutCommand,
)
    ensures
        command is NextWorkspace || command is PrevWorkspace || command is SwitchToWorkspace
            || command is SwitchToLastWorkspace ==> {
            let after = plan::record_after(record, command);
            &&& after.workspace_switch_generation == (record.workspace_switch_generation + 1)
                % 0x1_0000_0000_0000_0000
            &&& after.active_workspace_switch == Some(after.workspace_switch_generation)
            &&& after.workspace_switch_state == WorkspaceSwitchState::Active
        },
        command is CreateWorkspace || command is MoveWindowToWorkspace
            || command is MoveWorkspaceToMonitor || command is MoveNodeToMonitor
            || command is Tree ==> {
            let after = plan::record_after(record, command);
            &&& after.workspace_switch_generation == record.workspace_switch_generation
            &&& after.active_workspace_switch == record.active_workspace_switch
            &&& after.workspace_switch_state == WorkspaceSwitchState::Inactive
        },
{
}

/// A switch stores the floating positions of the space that commands act on, gets its
/// number, reaches the layout engine in that space as it was given, is noted as under way,
/// and has the engine's reply acted on for that space. Without a space it is numbered and
/// noted all the same, and that is all: nothing is stored, the engine is not called, and
/// the empty response is acted on for no space.
pub proof fn law_switch(reactor: Reactor, command: LayoutCommand, number: u64)
    requires
        command is NextWorkspace || command is PrevWorkspace || command is SwitchToWorkspace
            || command is SwitchToLastWorkspace,
        number == (reactor.workspace_switch_manager.workspace_switch_generation + 1)
            % 0x1_0000_0000_0000_0000,
    ensures
        ({
            let numbered = EffectView::RecordSwitch(
                WorkspaceSwitchManager {
                    workspace_switch_generation: number,
                    active_workspace_switch: Some(number),
                    workspace_switch_state:
                        reactor.workspace_switch_manager.workspace_switch_state,
                },
            );
            let noted = EffectView::RecordSwitch(
                WorkspaceSwitchManager {
                    workspace_switch_generation: number,
                    active_workspace_switch: Some(number),
                    workspace_switch_state: WorkspaceSwitchState::Active,
                },
            );
            plan::layout_plan(reactor, command) == match reactor.space_manager.command_space {
                Some(space) => seq![
                    EffectView::StoreFloatingPositions(space),
                    numbered,
                    EffectView::VirtualWorkspaceCommand { space, command },
                    noted,
                    EffectView::LayoutResponse {
                        response: ResponseSource::EngineReply,
                        workspace_space: Some(space),
                    },
                ],
                None => seq![
                    numbered,
                    noted,
                    EffectView::LayoutResponse {
                        response: ResponseSource::Empty,
                        workspace_space: None,
                    },
                ],
            }
        }),
{
    law_record_after_a_command(reactor.workspace_switch_manager, command);
    if reactor.space_manager.command_space is Some {
        laws::law_switch_in_a_space(reactor, command, reactor.space_manager.command_space->0);
    } else {
        laws::law_switch_without_a_space(reactor, command);
    }
}

/// A command to move a window to a workspace reaches the layout engine, as it was given, in
/// the space that commands act on, and is no switch. Without a space it does nothing.
pub proof fn law_move_window_to_workspace(reactor: Reactor, command: LayoutCommand)
    requires
        command is MoveWindowToWorkspace,
    ensures
        plan::layout_plan(reactor, command) == match reactor.space_manager.command_space {
            Some(space) => seq![EffectView::VirtualWorkspaceCommand { space, command }]
                + ends_without_switch(reactor, ResponseSource::EngineReply),
            None => ends_without_switch(reactor, ResponseSource::Empty),
        },
{
}

/// A command to create a workspace does nothing.
pub proof fn law_create_workspace(reactor: Reactor)
    ensures
        plan::layout_plan(reactor, LayoutCommand::CreateWorkspace) == ends_without_switch(
            reactor,
            ResponseSource::Empty,
        ),
{
}

/// A command on the tree of windows reaches the layout engine once, as it was given,
/// whatever space commands act on, with that space, with every screen's space and middle in
/// the order of the screens, and with the middle of the last screen that shows a space under
/// the number of that space. The engine's reply is acted on.
pub proof fn law_tree_command(reactor: Reactor, command: LayoutCommand)
    requires
        command is Tree,
    ensures
        plan::layout_plan(reactor, command).len() == 3,
        plan::layout_plan(reactor, command).skip(1) == ends_without_switch(
            reactor,
            ResponseSource::EngineReply,
        ),
        match plan::layout_plan(reactor, command)[0] {
            EffectView::EngineCommand(request) => {
                &&& request.command == command
                &&& request.space == reactor.space_manager.command_space
                &&& request.visible_spaces == reactor.space_manager.screens@.filter(
                    shows_a_space(),
                ).map_values(shown())
                &&& forall|raw: u64| #[trigger]
                    request.visible_space_centers.contains_key(raw) <==> exists|j: int|
                        0 <= j < reactor.space_manager.screens@.len() && (
                        #[trigger] reactor.space_manager.screens@[j]).space == Some(
                            SpaceId { raw },
                        )
                &&& forall|j: int|
                    0 <= j < reactor.space_manager.screens@.len() && (
                    #[trigger] reactor.space_manager.screens@[j]).space is Some && (forall|
                        later: int,
                    |
                        j < later < reactor.space_manager.screens@.len() ==> (
                        #[trigger] reactor.space_manager.screens@[later]).space
                            != reactor.space_manager.screens@[j].space)
                        ==> request.visible_space_centers[reactor.space_manager.screens@[j].space->0.raw]
                        == reactor.space_manager.screens@[j].center
            },
            _ => false,
        },
{
    let list = reactor.space_manager.screens@;
    law_spaces_on_show(list);
    lemma_centers(list);
    assert(plan::layout_plan(reactor, command).skip(1) =~= ends_without_switch(
        reactor,
        ResponseSource::EngineReply,
    ));
}

/// The centers of the spaces on show, screen by screen.
proof fn lemma_centers(list: Seq<Screen>)
    ensures
        ({
            let centers = screens::centers_of(screens::visible_spaces_of(list));
            &&& forall|raw: u64| #[trigger]
                centers.contains_key(raw) <==> exists|j: int|
                    0 <= j < list.len() && (#[trigger] list[j]).space == Some(SpaceId { raw })
            &&& forall|j: int|
                0 <= j < list.len() && (#[trigger] list[j]).space is Some && (forall|later: int|
                    j < later < list.len() ==> (#[trigger] list[later]).space != list[j].space)
                    ==> centers[list[j].space->0.raw] == list[j].center
        }),
    decreases list.len(),
{
    let centers = screens::centers_of(screens::visible_spaces_of(list));
    if list.len() > 0 {
        let before = list.drop_last();
        let last = list.last();
        let centers_before = screens::centers_of(screens::visible_spaces_of(before));
        lemma_centers(before);
        if last.space is Some {
            let visible = screens::visible_spaces_of(list);
            assert(visible.drop_last() =~= screens::visible_spaces_of(before));
            assert(centers == centers_before.insert(last.space->0.raw, last.center));
        }
        assert forall|raw: u64| #[trigger] centers.contains_key(raw) implies exists|j: int|
            0 <= j < list.len() && (#[trigger] list[j]).space == Some(SpaceId { raw }) by {
            if centers_before.contains_key(raw) {
                let j = choose|j: int|
                    0 <= j < before.len() && (#[trigger] before[j]).space == Some(
                        SpaceId { raw },
                    );
                assert(list[j] == before[j]);
            } else {
                assert(list[list.len() - 1].space == Some(SpaceId { raw }));
            }
        }
        assert forall|raw: u64, j: int|
            0 <= j < list.len() && (#[trigger] list[j]).space == Some(SpaceId { raw }) implies
            #[trigger] centers.contains_key(raw) by {
            if j < before.len() {
                assert(before[j] == list[j]);
                assert(centers_before.contains_key(raw));
            }
        }
        assert forall|j: int|
            0 <= j < list.len() && (#[trigger] list[j]).space is Some && (forall|later: int|
                j < later < list.len() ==> (#[trigger] list[later]).space
                    != list[j].space) implies centers[list[j].space->0.raw] == list[j].center by {
            if j < before.len() {
                assert(before[j] == list[j]);
                assert(list[list.len() - 1].space != list[j].space);
                assert forall|later: int| j < later < before.len() implies (
                #[trigger] before[later]).space != before[j].space by {
                    assert(list[later] == before[later]);
                }
                assert(centers_before[before[j].space->0.raw] == before[j].center);
            }
        }
    }
}

// A new configuration.

/// The place of an effect among those of a new configuration.
pub open spec fn config_rank(effect: EffectView) -> int {
    match effect {
        EffectView::InstallConfig(_) => 1,
        EffectView::SetLayoutSettings(_) => 2,
        EffectView::UpdateVirtualWorkspaceSettings(_) => 3,
        EffectView::UpdateDragConfig(_) => 4,
        EffectView::StackLineConfigUpdated(_) => 5,
        EffectView::MenuConfigUpdated(_) => 6,
        EffectView::UpdateLayout(_, _) => 7,
        EffectView::WmConfigUpdated(_) => 8,
        _ => 0,
    }
}

/// Every effect of a new configuration carries that configuration, or the part of it that
/// it is about. There are no other effects, none comes twice, and they come in this order:
/// the configuration is installed, the layout engine gets the layout settings and those of
/// the virtual workspaces, dragging gets those of window snapping, the stack line and the
/// menu bar are told if they are there, the layout is brought up to date, and the
/// controller is told if it is there and the key bindings are not the same as before.
pub proof fn law_new_configuration(reactor: Reactor, config: Config)
    ensures
        forall|i: int|
            0 <= i < plan::config_plan(reactor, config).len() ==> match
            #[trigger] plan::config_plan(reactor, config)[i] {
                EffectView::InstallConfig(c) => c == config,
                EffectView::SetLayoutSettings(t) => t == config.settings.layout,
                EffectView::UpdateVirtualWorkspaceSettings(t) => t == config.virtual_workspaces,
                EffectView::UpdateDragConfig(t) => t == config.settings.window_snapping,
                EffectView::StackLineConfigUpdated(c) => c == config
                    && reactor.communication_manager.stack_line_tx,
                EffectView::MenuConfigUpdated(c) => c == config && reactor.menu_manager.menu_tx,
                EffectView::UpdateLayout(first, second) => !first && second,
                EffectView::WmConfigUpdated(c) => c == config
                    && reactor.communication_manager.wm_sender
                    && reactor.config_manager.config.keys@ != config.keys@,
                _ => false,
            },
        forall|i: int, j: int|
            #![trigger plan::config_plan(reactor, config)[i], plan::config_plan(reactor, config)[j]]
            0 <= i < j < plan::config_plan(reactor, config).len() ==> config_rank(
                plan::config_plan(reactor, config)[i],
            ) < config_rank(plan::config_plan(reactor, config)[j]),
        plan::config_plan(reactor, config).contains(EffectView::InstallConfig(config)),
        plan::config_plan(reactor, config).contains(
            EffectView::SetLayoutSettings(config.settings.layout),
        ),
        plan::config_plan(reactor, config).contains(
            EffectView::UpdateVirtualWorkspaceSettings(config.virtual_workspaces),
        ),
        plan::config_plan(reactor, config).contains(
            EffectView::UpdateDragConfig(config.settings.window_snapping),
        ),
        reactor.communication_manager.stack_line_tx ==> plan::config_plan(
            reactor,
            config,
        ).contains(EffectView::StackLineConfigUpdated(config)),
        reactor.menu_manager.menu_tx ==> plan::config_plan(reactor, config).contains(
            EffectView::MenuConfigUpdated(config),
        ),
        plan::config_plan(reactor, config).contains(EffectView::UpdateLayout(false, true)),
        reactor.communication_manager.wm_sender && reactor.config_manager.config.keys@
            != config.keys@ ==> plan::config_plan(reactor, config).contains(
            EffectView::WmConfigUpdated(config),
        ),
{
    let whole = plan::config_plan(reactor, config);
    let extra: int = (if reactor.communication_manager.stack_line_tx {
        1int
    } else {
        0int
    }) + (if reactor.menu_manager.menu_tx {
        1int
    } else {
        0int
    });
    laws::law_config_is_announced(reactor, config);
    assert(whole[0] == EffectView::InstallConfig(config));
    assert(whole[1] == EffectView::SetLayoutSettings(config.settings.layout));
    assert(whole[2] == EffectView::UpdateVirtualWorkspaceSettings(config.virtual_workspaces));
    assert(whole[3] == EffectView::UpdateDragConfig(config.settings.window_snapping));
    assert(whole[4 + extra] == EffectView::UpdateLayout(false, true));
}

// Focus.

/// A window that is kept is focused in the space that fits it best, if there is one, and
/// then asked to be raised: it alone, with no place for the pointer, through the handle of
/// its own process, if that is known.
pub proof fn law_focus_a_kept_window(
    reactor: Reactor,
    window: WindowId,
    server_id: Option<WindowServerId>,
)
    requires
        reactor.window_manager.windows@.contains_key(windows::window_key(window)),
    ensures
        plan::focus_window_plan(reactor, window, server_id) == (
        match reactor.window_manager.windows@[windows::window_key(window)].best_space {
            Some(space) => seq![EffectView::WindowFocused(space, window)],
            None => Seq::empty(),
        }) + seq![
            EffectView::Raise(
                RaiseRequestView {
                    raise_windows: Seq::empty(),
                    focus_window: Some((window, None)),
                    app_handles: if reactor.app_manager.apps@.contains_key(window.pid) {
                        map![window.pid => reactor.app_manager.apps@[window.pid]]
                    } else {
                        Map::<i32, AppHandle>::empty()
                    },
                },
            ),
        ],
{
}

/// A window that is not kept is left to the window server, under its process and the
/// number given; without a number nothing happens.
pub proof fn law_focus_an_unknown_window(
    reactor: Reactor,
    window: WindowId,
    server_id: Option<WindowServerId>,
)
    requires
        !reactor.window_manager.windows@.contains_key(windows::window_key(window)),
    ensures
        plan::focus_window_plan(reactor, window, server_id) == match server_id {
            Some(id) => seq![EffectView::MakeKeyWindow(window.pid, id)],
            None => Seq::empty(),
        },
{
}

/// To focus a screen is to focus, in the space that it shows, the window that had focus
/// there last, whatever windows the active workspace has; where none had, the first of the
/// active workspace; and nothing where there is no such window or no space.
pub proof fn law_focus_a_screen(reactor: Reactor, screen: Screen, space: SpaceId)
    ensures
        screen.space is None ==> plan::focus_screen_plan(reactor, screen).len() == 0,
        screen.space == Some(space) && reactor.window_manager.last_focused@.contains_key(
            space.raw,
        ) ==> plan::focus_screen_plan(reactor, screen) == seq![
            EffectView::WindowFocused(
                space,
                reactor.window_manager.last_focused@[space.raw],
            ),
        ],
        screen.space == Some(space) && !reactor.window_manager.last_focused@.contains_key(
            space.raw,
        ) && reactor.layout_engine.active_windows@.contains_key(space.raw)
            && reactor.layout_engine.active_windows@[space.raw]@.len() > 0
            ==> plan::focus_screen_plan(reactor, screen) == seq![
            EffectView::WindowFocused(
                space,
                reactor.layout_engine.active_windows@[space.raw]@[0],
            ),
        ],
        screen.space == Some(space) && !reactor.window_manager.last_focused@.contains_key(
            space.raw,
        ) && (reactor.layout_engine.active_windows@.contains_key(space.raw)
            ==> reactor.layout_engine.active_windows@[space.raw]@.len() == 0)
            ==> plan::focus_screen_plan(reactor, screen).len() == 0,
{
}

/// To focus a display is to focus its screen; where that comes to nothing, the pointer goes
/// to the middle of the screen, if the event tap is there. No display, no effect.
pub proof fn law_focus_a_display(reactor: Reactor, screen: Screen)
    ensures
        plan::focus_screen_plan(reactor, screen).len() > 0 ==> plan::focus_display_plan(
            reactor,
            Some(screen),
        ) == plan::focus_screen_plan(reactor, screen),
        plan::focus_screen_plan(reactor, screen).len() == 0
            && reactor.communication_manager.event_tap_tx ==> plan::focus_display_plan(
            reactor,
            Some(screen),
        ) == seq![EffectView::Warp(screen.center)],
        plan::focus_screen_plan(reactor, screen).len() == 0
            && !reactor.communication_manager.event_tap_tx ==> plan::focus_display_plan(
            reactor,
            Some(screen),
        ).len() == 0,
        plan::focus_display_plan(reactor, None).len() == 0,
{
}

/// To focus a display on which a window had focus is to focus that window and nothing more.
pub proof fn law_display_focus_returns_to_the_last_window(
    reactor: Reactor,
    screen: Screen,
    space: SpaceId,
)
    requires
        screen.space == Some(space),
        reactor.window_manager.last_focused@.contains_key(space.raw),
    ensures
        plan::focus_display_plan(reactor, Some(screen)) == seq![
            EffectView::WindowFocused(
                space,
                reactor.window_manager.last_focused@[space.raw],
            ),
        ],
{
    law_focus_a_screen(reactor, screen, space);
}

/// To move the mouse to a display sends the pointer to the middle of the screen that is
/// meant, if the event tap is there, and then focuses that screen, in any case. Where no
/// screen is meant, nothing happens.
pub proof fn law_move_the_mouse(reactor: Reactor, selector: DisplaySelector, screen: Screen)
    ensures
        plan::selected_screen(reactor.space_manager, selector) == Some(screen)
            && reactor.communication_manager.event_tap_tx ==> plan::move_mouse_plan(
            reactor,
            selector,
        ) == seq![EffectView::Warp(screen.center)] + plan::focus_screen_plan(reactor, screen),
        plan::selected_screen(reactor.space_manager, selector) == Some(screen)
            && !reactor.communication_manager.event_tap_tx ==> plan::move_mouse_plan(
            reactor,
            selector,
        ) == plan::focus_screen_plan(reactor, screen),
        plan::selected_screen(reactor.space_manager, selector) is None
            ==> plan::move_mouse_plan(reactor, selector).len() == 0,
{
    assert(Seq::<EffectView>::empty() + plan::focus_screen_plan(reactor, screen)
        =~= plan::focus_screen_plan(reactor, screen));
}

// The rest.

/// The window that the window server knows by the number given is closed; where no number
/// is given, or none is known by it, the main window; and no other, and none where there
/// is none.
pub proof fn law_close(reactor: Reactor, server_id: Option<WindowServerId>, window: WindowId)
    ensures
        server_id matches Some(id) && reactor.window_manager.window_ids@.contains_key(id.raw)
            && reactor.window_manager.window_ids@[id.raw] == window
            ==> plan::close_window_plan(reactor, server_id) == seq![
            EffectView::CloseWindow(window),
        ],
        (server_id matches Some(id) ==> !reactor.window_manager.window_ids@.contains_key(id.raw))
            && reactor.window_manager.main_window == Some(window) ==> plan::close_window_plan(
            reactor,
            server_id,
        ) == seq![EffectView::CloseWindow(window)],
        (server_id matches Some(id) ==> !reactor.window_manager.window_ids@.contains_key(id.raw))
            && reactor.window_manager.main_window is None ==> plan::close_window_plan(
            reactor,
            server_id,
        ).len() == 0,
{
}

/// The trees of the spaces on show are described one for one, in the order of the screens,
/// each with an empty text and the flag set.
pub proof fn law_debug(reactor: Reactor)
    ensures
        plan::debug_plan(reactor).len() == reactor.space_manager.screens@.filter(
            shows_a_space(),
        ).len(),
        forall|i: int|
            0 <= i < plan::debug_plan(reactor).len() ==> #[trigger] plan::debug_plan(reactor)[i]
                == EffectView::DebugTree(
                reactor.space_manager.screens@.filter(shows_a_space())[i].space->0,
                "",
                true,
            ),
{
    law_spaces_on_show(reactor.space_manager.screens@);
}

/// A request for mission control goes to the controller as it is, once, if the controller
/// is there, and nowhere else. To show it with all windows and to show it with those of the
/// current workspace are such requests, each its own.
pub proof fn law_mission_control(reactor: Reactor, command: WmCmd)
    ensures
        reactor.communication_manager.wm_sender ==> plan::wm_plan(reactor, command) == seq![
            EffectView::Wm(command),
        ],
        reactor.communication_manager.wm_sender ==> plan::show_all_plan(reactor) == seq![
            EffectView::Wm(WmCmd::ShowMissionControlAll),
        ],
        reactor.communication_manager.wm_sender ==> plan::show_current_plan(reactor) == seq![
            EffectView::Wm(WmCmd::ShowMissionControlCurrent),
        ],
        !reactor.communication_manager.wm_sender ==> plan::wm_plan(reactor, command).len() == 0,
        !reactor.communication_manager.wm_sender ==> plan::show_all_plan(reactor).len() == 0,
        !reactor.communication_manager.wm_sender ==> plan::show_current_plan(reactor).len() == 0,
{
}

/// To dismiss mission control is to ask the controller for all of it, as when it is shown;
/// without a controller it is noted as not shown.
pub proof fn law_dismiss_mission_control(reactor: Reactor)
    ensures
        reactor.communication_manager.wm_sender ==> plan::dismiss_plan(reactor) == seq![
            EffectView::Wm(WmCmd::ShowMissionControlAll),
        ],
        !reactor.communication_manager.wm_sender ==> plan::dismiss_plan(reactor) == seq![
            EffectView::SetMissionControlActive(false),
        ],
{
}

/// The process ends once, with zero exactly where the layout was saved, and with three where
/// it was not.
pub proof fn law_exit(saved: Result<(), String>)
    ensures
        saved is Ok ==> plan::save_and_exit_plan(saved) == seq![EffectView::Exit(0)],
        saved is Err ==> plan::save_and_exit_plan(saved) == seq![EffectView::Exit(3)],
        plan::exit_code(true) == 0,
        plan::exit_code(false) == 3,
{
}

/// A serialized state is printed as it is, as one line; a failure prints nothing.
pub proof fn law_serialize(state: String, failure: String)
    ensures
        plan::serialize_plan(Ok(state)) == seq![EffectView::Print { text: state, end: '\n' }],
        plan::serialize_plan(Err(failure)).len() == 0,
{
}

/// A command on the metrics and a switch of spaces are handed on as they are, once.
pub proof fn law_handed_on(command: MetricsCommand, direction: Direction)
    ensures
        plan::metrics_plan(command) == seq![EffectView::Metrics(command)],
        plan::switch_space_plan(direction) == seq![EffectView::SwitchSpace(direction)],
{
}

} // verus!
