//! The screens, the spaces that they show, and the searches over them.

use std::collections::HashMap;

use vstd::prelude::*;

use crate::geometry;
use crate::geometry::{Direction, Point};

verus! {

/// The number of a space (a desktop) of the window server.
#[derive(Clone, Copy, Debug, PartialEq, Eq, Structural)]
pub struct SpaceId {
    pub raw: u64,
}

impl SpaceId {
    /// The number by which the window server knows the space.
    pub fn get(self) -> (res: u64)
        ensures
            res == self.raw,
    {
        self.raw
    }
}

/// A screen: its number and unique name, the middle of its frame, and the space
/// that it shows, if it shows one.
#[derive(Debug)]
pub struct Screen {
    pub screen_id: u32,
    pub display_uuid: String,
    pub center: Point,
    pub space: Option<SpaceId>,
}

impl Clone for Screen {
    fn clone(&self) -> (res: Self)
        ensures
            res == *self,
    {
        Screen {
            screen_id: self.screen_id,
            display_uuid: self.display_uuid.clone(),
            center: self.center,
            space: self.space,
        }
    }
}

/// The screens that focus moves to from the focused one, by direction.
#[derive(Debug)]
pub struct FocusNeighbours {
    pub left: Option<Screen>,
    pub right: Option<Screen>,
    pub up: Option<Screen>,
    pub down: Option<Screen>,
}

/// What is known of screens and spaces.
#[derive(Debug)]
pub struct SpaceManager {
    /// The screens, in the order in which they are numbered.
    pub screens: Vec<Screen>,
    /// The screen on which a space is found, by the space's number.
    pub screens_by_space: HashMap<u64, Screen>,
    /// Where focus goes from here.
    pub focus_neighbours: FocusNeighbours,
    /// The space that workspace commands act on.
    pub command_space: Option<SpaceId>,
}

/// A choice of a display by its place in the list of screens or by its unique name.
#[derive(Debug, PartialEq, Eq)]
pub enum DisplaySelector {
    Index(usize),
    Uuid(String),
}

/// The index of the first screen that meets `p`.
pub open spec fn first_where(screens: Seq<Screen>, p: spec_fn(Screen) -> bool) -> Option<int>
    decreases screens.len(),
{
    if screens.len() == 0 {
        None
    } else {
        match first_where(screens.drop_last(), p) {
            Some(i) => Some(i),
            None => if p(screens.last()) {
                Some(screens.len() - 1)
            } else {
                None
            },
        }
    }
}

/// The index of the screen that lies furthest in `direction` of those that meet `p`;
/// of several that lie equally far, the last one.
pub open spec fn furthest_where(
    screens: Seq<Screen>,
    p: spec_fn(Screen) -> bool,
    direction: Direction,
) -> Option<int>
    decreases screens.len(),
{
    if screens.len() == 0 {
        None
    } else {
        let before = furthest_where(screens.drop_last(), p, direction);
        if !p(screens.last()) {
            before
        } else {
            match before {
                Some(i) => if geometry::lies_towards(
                    direction,
                    screens.last().center,
                    screens[i].center,
                ) {
                    Some(i)
                } else {
                    Some(screens.len() - 1)
                },
                None => Some(screens.len() - 1),
            }
        }
    }
}

/// The screens that have the number `id`.
pub open spec fn has_id(id: u32) -> spec_fn(Screen) -> bool {
    |s: Screen| s.screen_id == id
}

/// The screens that do not have the number `id`.
pub open spec fn lacks_id(id: u32) -> spec_fn(Screen) -> bool {
    |s: Screen| s.screen_id != id
}

/// The screens of the unique name `uuid`.
pub open spec fn has_uuid(uuid: Seq<char>) -> spec_fn(Screen) -> bool {
    |s: Screen| s.display_uuid@ == uuid
}

/// The spaces on show, each with the middle of its screen, in the order of the
/// screens. Screens that show no space are passed over.
pub open spec fn visible_spaces_of(screens: Seq<Screen>) -> Seq<(SpaceId, Point)>
    decreases screens.len(),
{
    if screens.len() == 0 {
        Seq::empty()
    } else {
        let before = visible_spaces_of(screens.drop_last());
        match screens.last().space {
            Some(space) => before.push((space, screens.last().center)),
            None => before,
        }
    }
}

/// For each space listed, by its number, the point listed with it last.
pub open spec fn centers_of(visible: Seq<(SpaceId, Point)>) -> Map<u64, Point>
    decreases visible.len(),
{
    if visible.len() == 0 {
        Map::empty()
    } else {
        centers_of(visible.drop_last()).insert(visible.last().0.raw, visible.last().1)
    }
}

/// The value under `key`, if there is one.
pub open spec fn lookup<K, V>(map: Map<K, V>, key: K) -> Option<V> {
    if map.contains_key(key) {
        Some(map[key])
    } else {
        None
    }
}

impl FocusNeighbours {
    /// The screen in `direction`.
    pub open spec fn towards(self, direction: Direction) -> Option<Screen> {
        match direction {
            Direction::Left => self.left,
            Direction::Right => self.right,
            Direction::Up => self.up,
            Direction::Down => self.down,
        }
    }
}

impl SpaceManager {
    /// The space that `screen` shows.
    pub fn space_for_screen(&self, screen: &Screen) -> (res: Option<SpaceId>)
        ensures
            res == screen.space,
    {
        screen.space
    }

    /// The screen on which `space` is found.
    pub fn screen_by_space(&self, space: SpaceId) -> (res: Option<&Screen>)
        ensures
            res == match lookup(self.screens_by_space@, space.raw) {
                Some(screen) => Some(&screen),
                None => None,
            },
    {
        self.screens_by_space.get(&space.raw)
    }

    /// The screen that focus goes to in `direction`.
    pub fn screen_for_focus_direction(&self, direction: Direction) -> (res: Option<&Screen>)
        ensures
            res == match self.focus_neighbours.towards(direction) {
                Some(screen) => Some(&screen),
                None => None,
            },
    {
        match direction {
            Direction::Left => self.focus_neighbours.left.as_ref(),
            Direction::Right => self.focus_neighbours.right.as_ref(),
            Direction::Up => self.focus_neighbours.up.as_ref(),
            Direction::Down => self.focus_neighbours.down.as_ref(),
        }
    }

    /// The index of the first screen with the number `id`.
    pub fn position_by_id(&self, id: u32) -> (res: Option<usize>)
        ensures
            match res {
                Some(i) => first_where(self.screens@, has_id(id)) == Some(i as int),
                None => first_where(self.screens@, has_id(id)) is None,
            },
    {
        let mut i: usize = 0;
        assert(self.screens@.take(0).len() == 0);
        while i < self.screens.len()
            invariant
                i <= self.screens.len(),
                first_where(self.screens@.take(i as int), has_id(id)) is None,
            decreases self.screens.len() - i,
        {
            proof {
                assert(self.screens@.take(i + 1).drop_last() =~= self.screens@.take(i as int));
                if has_id(id)(self.screens@[i as int]) {
                    lemma_first_where_prefix(self.screens@, has_id(id), i + 1);
                }
            }
            if self.screens[i].screen_id == id {
                return Some(i);
            }
            i += 1;
        }
        assert(self.screens@.take(i as int) =~= self.screens@);
        None
    }

    /// The first screen of the unique name `uuid`.
    pub fn screen_by_uuid(&self, uuid: &String) -> (res: Option<&Screen>)
        ensures
            res == match first_where(self.screens@, has_uuid(uuid@)) {
                Some(i) => Some(&self.screens@[i]),
                None => None,
            },
    {
        let mut i: usize = 0;
        assert(self.screens@.take(0).len() == 0);
        while i < self.screens.len()
            invariant
                i <= self.screens.len(),
                first_where(self.screens@.take(i as int), has_uuid(uuid@)) is None,
            decreases self.screens.len() - i,
        {
            proof {
                assert(self.screens@.take(i + 1).drop_last() =~= self.screens@.take(i as int));
                if has_uuid(uuid@)(self.screens@[i as int]) {
                    lemma_first_where_prefix(self.screens@, has_uuid(uuid@), i + 1);
                }
            }
            if self.screens[i].display_uuid.eq(uuid) {
                return Some(&self.screens[i]);
            }
            i += 1;
        }
        assert(self.screens@.take(i as int) =~= self.screens@);
        None
    }

    /// The spaces on show, each with the middle of its screen.
    pub fn visible_spaces(&self) -> (res: Vec<(SpaceId, Point)>)
        ensures
            res@ == visible_spaces_of(self.screens@),
    {
        let mut res: Vec<(SpaceId, Point)> = Vec::new();
        let mut i: usize = 0;
        while i < self.screens.len()
            invariant
                i <= self.screens.len(),
                res@ == visible_spaces_of(self.screens@.take(i as int)),
            decreases self.screens.len() - i,
        {
            assert(self.screens@.take(i + 1).drop_last() =~= self.screens@.take(i as int));
            if let Some(space) = self.space_for_screen(&self.screens[i]) {
                res.push((space, self.screens[i].center));
            }
            i += 1;
        }
        assert(self.screens@.take(i as int) =~= self.screens@);
        res
    }
}

/// For each space listed, by its number, the point listed with it last.
pub fn visible_space_centers(visible: &Vec<(SpaceId, Point)>) -> (res: HashMap<u64, Point>)
    ensures
        res@ == centers_of(visible@),
{
    let mut res: HashMap<u64, Point> = HashMap::new();
    let mut i: usize = 0;
    while i < visible.len()
        invariant
            i <= visible.len(),
            res@ == centers_of(visible@.take(i as int)),
        decreases visible.len() - i,
    {
        assert(visible@.take(i + 1).drop_last() =~= visible@.take(i as int));
        let (space, center) = visible[i];
        res.insert(space.get(), center);
        i += 1;
    }
    assert(visible@.take(i as int) =~= visible@);
    res
}

/// `first_where` gives an index exactly where some screen meets `p`, and then the
/// least one.
pub proof fn lemma_first_where(screens: Seq<Screen>, p: spec_fn(Screen) -> bool)
    ensures
        match first_where(screens, p) {
            Some(i) => {
                &&& 0 <= i < screens.len()
                &&& p(screens[i])
                &&& forall|j: int| 0 <= j < i ==> !p(#[trigger] screens[j])
            },
            None => forall|j: int| 0 <= j < screens.len() ==> !p(#[trigger] screens[j]),
        },
    decreases screens.len(),
{
    if screens.len() > 0 {
        lemma_first_where(screens.drop_last(), p);
        assert forall|j: int| 0 <= j < screens.len() - 1 implies screens.drop_last()[j]
            == #[trigger] screens[j] by {}
    }
}

/// `furthest_where` gives an index exactly where some screen meets `p`. No screen that
/// meets `p` then lies further in `direction`, and those listed behind lie less far.
pub proof fn lemma_furthest_where(
    screens: Seq<Screen>,
    p: spec_fn(Screen) -> bool,
    direction: Direction,
)
    ensures
        match furthest_where(screens, p, direction) {
            Some(i) => {
                &&& 0 <= i < screens.len()
                &&& p(screens[i])
                &&& forall|j: int|
                    0 <= j < screens.len() && p(#[trigger] screens[j])
                        ==> !geometry::lies_towards(
                        direction,
                        screens[i].center,
                        screens[j].center,
                    )
                &&& forall|j: int|
                    i < j < screens.len() && p(#[trigger] screens[j])
                        ==> geometry::lies_towards(
                        direction,
                        screens[j].center,
                        screens[i].center,
                    )
            },
            None => forall|j: int| 0 <= j < screens.len() ==> !p(#[trigger] screens[j]),
        },
    decreases screens.len(),
{
    if screens.len() > 0 {
        lemma_furthest_where(screens.drop_last(), p, direction);
        assert forall|j: int| 0 <= j < screens.len() - 1 implies screens.drop_last()[j]
            == #[trigger] screens[j] by {}
    }
}

/// What is found first in a prefix is found first in the whole.
pub proof fn lemma_first_where_prefix(
    screens: Seq<Screen>,
    p: spec_fn(Screen) -> bool,
    n: int,
)
    requires
        0 <= n <= screens.len(),
        first_where(screens.take(n), p) is Some,
    ensures
        first_where(screens, p) == first_where(screens.take(n), p),
    decreases screens.len(),
{
    if n < screens.len() {
        assert(screens.drop_last().take(n) =~= screens.take(n));
        lemma_first_where_prefix(screens.drop_last(), p, n);
    } else {
        assert(screens.take(n) =~= screens);
    }
}

} // verus!
