//! The arena: four walls around an axis-aligned rectangle, and walks along
//! them.

use vstd::prelude::*;

verus! {

/// Largest magnitude that a wall coordinate may have.
pub const COORD_LIMIT: i64 = 1_000_000_000_000_000_000;

/// One length unit of the game's own settings, in steps.
pub const UNIT: i64 = 1_000_000;

/// The side of the game's own arena, which is a square about the origin.
pub const WALL_LEN: i64 = 400_000_000;

/// The x coordinate of its left wall.
pub const LEFT_WALL_POS: i64 = -200_000_000;

/// The x coordinate of its right wall.
pub const RIGHT_WALL_POS: i64 = 200_000_000;

/// The y coordinate of its top wall.
pub const TOP_WALL_POS: i64 = 200_000_000;

/// The y coordinate of its bottom wall.
pub const BOTTOM_WALL_POS: i64 = -200_000_000;

/// The thickness with which the game's own walls are drawn.
pub const WALL_THICKNESS: i64 = 1_000_000;

/// A position in the plane, in steps.
#[derive(Clone, Copy, Debug, PartialEq, Eq, Structural)]
pub struct Point {
    pub x: i64,
    pub y: i64,
}

impl View for Point {
    type V = (int, int);

    /// The coordinates as integers.
    open spec fn view(&self) -> (int, int) {
        (self.x as int, self.y as int)
    }
}

/// The arena's walls: the closed rectangle `[left, right] x [bottom, top]`
/// and the thickness with which the walls are drawn.
#[derive(Clone, Copy, Debug, PartialEq, Eq, Structural)]
pub struct WallPlugin {
    pub left: i64,
    pub right: i64,
    pub bottom: i64,
    pub top: i64,
    pub thickness: i64,
}

/// One of the four walls.
#[derive(Clone, Copy, Debug, PartialEq, Eq, Structural)]
pub enum WallLocation {
    Left,
    Right,
    Bottom,
    Top,
}

impl WallPlugin {
    /// The arena is not empty in either direction and its coordinates are
    /// within the limit.
    pub open spec fn wf(self) -> bool {
        &&& self.left < self.right
        &&& self.bottom < self.top
        &&& -COORD_LIMIT <= self.left
        &&& self.right <= COORD_LIMIT
        &&& -COORD_LIMIT <= self.bottom
        &&& self.top <= COORD_LIMIT
        &&& 0 <= self.thickness <= COORD_LIMIT
    }

    /// The arena's extent along the x axis.
    pub open spec fn width(self) -> int {
        self.right - self.left
    }

    /// The arena's extent along the y axis.
    pub open spec fn height(self) -> int {
        self.top - self.bottom
    }

    /// The point lies in the closed rectangle.
    pub open spec fn contains(self, x: int, y: int) -> bool {
        self.left <= x <= self.right && self.bottom <= y <= self.top
    }

    /// The point lies on the given wall.
    pub open spec fn on_wall(self, wall: WallLocation, x: int, y: int) -> bool {
        match wall {
            WallLocation::Left => x == self.left && self.bottom <= y <= self.top,
            WallLocation::Right => x == self.right && self.bottom <= y <= self.top,
            WallLocation::Bottom => y == self.bottom && self.left <= x <= self.right,
            WallLocation::Top => y == self.top && self.left <= x <= self.right,
        }
    }

    /// The point lies on the rectangle's outline.
    pub open spec fn on_perimeter(self, x: int, y: int) -> bool {
        self.contains(x, y) && (x == self.left || x == self.right || y == self.bottom || y
            == self.top)
    }

    /// The length of the given wall.
    pub open spec fn side(self, wall: WallLocation) -> int {
        match wall {
            WallLocation::Left | WallLocation::Right => self.height(),
            WallLocation::Bottom | WallLocation::Top => self.width(),
        }
    }

    /// The game's own arena.
    pub fn standard() -> (walls: WallPlugin)
        ensures
            walls.wf(),
            walls == (WallPlugin {
                left: LEFT_WALL_POS,
                right: RIGHT_WALL_POS,
                bottom: BOTTOM_WALL_POS,
                top: TOP_WALL_POS,
                thickness: WALL_THICKNESS,
            }),
    {
        WallPlugin {
            left: LEFT_WALL_POS,
            right: RIGHT_WALL_POS,
            bottom: BOTTOM_WALL_POS,
            top: TOP_WALL_POS,
            thickness: WALL_THICKNESS,
        }
    }

    /// The rectangle with the given sides, where they describe one.
    pub fn new(left: i64, right: i64, bottom: i64, top: i64, thickness: i64) -> (made: Option<
        WallPlugin,
    >)
        ensures
            made == if (WallPlugin { left, right, bottom, top, thickness }).wf() {
                Some(WallPlugin { left, right, bottom, top, thickness })
            } else {
                None
            },
    {
        let wall = WallPlugin { left, right, bottom, top, thickness };
        if wall.is_valid() {
            Some(wall)
        } else {
            None
        }
    }

    /// Tests the well-formedness of the walls.
    pub fn is_valid(&self) -> (ok: bool)
        ensures
            ok == self.wf(),
    {
        self.left < self.right && self.bottom < self.top && -COORD_LIMIT <= self.left
            && self.right <= COORD_LIMIT && -COORD_LIMIT <= self.bottom && self.top
            <= COORD_LIMIT && 0 <= self.thickness && self.thickness <= COORD_LIMIT
    }

    /// The length of the given wall.
    pub fn side_len(&self, wall: WallLocation) -> (len: i64)
        requires
            self.wf(),
        ensures
            len == self.side(wall),
            0 < len <= 2 * COORD_LIMIT,
    {
        match wall {
            WallLocation::Left | WallLocation::Right => self.top - self.bottom,
            WallLocation::Bottom | WallLocation::Top => self.right - self.left,
        }
    }

    /// The middle of the arena, rounded towards the bottom left corner.
    pub open spec fn center(self) -> (int, int) {
        (self.left + self.width() / 2, self.bottom + self.height() / 2)
    }

    /// The middle of the arena.
    pub fn center_pos(&self) -> (pos: Point)
        requires
            self.wf(),
        ensures
            pos@ == self.center(),
            self.contains(pos.x as int, pos.y as int),
    {
        Point {
            x: self.left + (self.right - self.left) / 2,
            y: self.bottom + (self.top - self.bottom) / 2,
        }
    }
}

impl WallLocation {
    /// The four walls, in the order in which a spawn picks among them.
    pub open spec fn all() -> Seq<WallLocation> {
        seq![WallLocation::Left, WallLocation::Right, WallLocation::Bottom, WallLocation::Top]
    }

    /// The corner at which a walk along this wall starts.
    pub open spec fn begin(self, walls: WallPlugin) -> (int, int) {
        match self {
            WallLocation::Left => (walls.left as int, walls.bottom as int),
            WallLocation::Right => (walls.right as int, walls.bottom as int),
            WallLocation::Bottom => (walls.left as int, walls.bottom as int),
            WallLocation::Top => (walls.left as int, walls.top as int),
        }
    }

    /// The point reached from `begin` after `distance` steps along this
    /// wall: upwards on the left and right walls, to the right on the bottom
    /// and top walls. The distance is taken as it is, also past the wall's
    /// end.
    pub open spec fn walk(self, walls: WallPlugin, distance: int) -> (int, int) {
        match self {
            WallLocation::Left | WallLocation::Right => (
                self.begin(walls).0,
                self.begin(walls).1 + distance,
            ),
            WallLocation::Bottom | WallLocation::Top => (
                self.begin(walls).0 + distance,
                self.begin(walls).1,
            ),
        }
    }

    /// The walk's end point can be held in a `Point`.
    pub open spec fn walk_fits(self, walls: WallPlugin, distance: int) -> bool {
        let end = self.walk(walls, distance);
        i64::MIN <= end.0 <= i64::MAX && i64::MIN <= end.1 <= i64::MAX
    }

    /// The four walls, in the order in which a spawn picks among them.
    pub fn values() -> (walls: Vec<WallLocation>)
        ensures
            walls@ == Self::all(),
    {
        let walls = vec![
            WallLocation::Left,
            WallLocation::Right,
            WallLocation::Bottom,
            WallLocation::Top,
        ];
        assert(walls@ =~= Self::all());
        walls
    }

    /// The corner at which a walk along this wall starts: the lower end of
    /// the left and right walls, the left end of the bottom and top walls.
    pub fn begin_pos(&self, walls: &WallPlugin) -> (pos: Point)
        ensures
            pos@ == self.begin(*walls),
    {
        match self {
            WallLocation::Left => Point { x: walls.left, y: walls.bottom },
            WallLocation::Right => Point { x: walls.right, y: walls.bottom },
            WallLocation::Bottom => Point { x: walls.left, y: walls.bottom },
            WallLocation::Top => Point { x: walls.left, y: walls.top },
        }
    }

    /// The point reached after `distance` steps along this wall. A distance
    /// beyond the wall's length is not wrapped: it leads past the wall's end,
    /// as far as a `Point` can hold.
    pub fn go_on_wall(&self, walls: &WallPlugin, distance: i64) -> (pos: Point)
        requires
            self.walk_fits(*walls, distance as int),
        ensures
            pos@ == self.walk(*walls, distance as int),
    {
        let mut pos = self.begin_pos(walls);
        match self {
            WallLocation::Left | WallLocation::Right => {
                pos.y = pos.y + distance;
            },
            WallLocation::Bottom | WallLocation::Top => {
                pos.x = pos.x + distance;
            },
        }
        pos
    }

    /// The middle of this wall, where its sprite is centred.
    pub open spec fn middle(self, walls: WallPlugin) -> (int, int) {
        match self {
            WallLocation::Left => (walls.left as int, walls.center().1),
            WallLocation::Right => (walls.right as int, walls.center().1),
            WallLocation::Bottom => (walls.center().0, walls.bottom as int),
            WallLocation::Top => (walls.center().0, walls.top as int),
        }
    }

    /// Width and height of this wall's sprite: the walls overlap in the
    /// corners by their thickness.
    pub open spec fn extent(self, walls: WallPlugin) -> (int, int) {
        match self {
            WallLocation::Left | WallLocation::Right => (
                walls.thickness as int,
                walls.height() + walls.thickness,
            ),
            WallLocation::Bottom | WallLocation::Top => (
                walls.width() + walls.thickness,
                walls.thickness as int,
            ),
        }
    }

    /// The middle of this wall.
    pub fn position(&self, walls: &WallPlugin) -> (pos: Point)
        requires
            walls.wf(),
        ensures
            pos@ == self.middle(*walls),
            walls.on_wall(*self, pos.x as int, pos.y as int),
    {
        let center = walls.center_pos();
        match self {
            WallLocation::Left => Point { x: walls.left, y: center.y },
            WallLocation::Right => Point { x: walls.right, y: center.y },
            WallLocation::Bottom => Point { x: center.x, y: walls.bottom },
            WallLocation::Top => Point { x: center.x, y: walls.top },
        }
    }

    /// Width and height of this wall's sprite.
    pub fn size(&self, walls: &WallPlugin) -> (size: Point)
        requires
            walls.wf(),
        ensures
            size@ == self.extent(*walls),
    {
        let arena_height: i64 = walls.top - walls.bottom;
        let arena_width: i64 = walls.right - walls.left;
        match self {
            WallLocation::Left | WallLocation::Right => Point {
                x: walls.thickness,
                y: arena_height + walls.thickness,
            },
            WallLocation::Bottom | WallLocation::Top => Point {
                x: arena_width + walls.thickness,
                y: walls.thickness,
            },
        }
    }
}

/// The point lies strictly outside the arena.
pub fn is_out_of_wall(walls: &WallPlugin, x: i64, y: i64) -> (out: bool)
    ensures
        out == !walls.contains(x as int, y as int),
{
    !is_in_or_on_wall(walls, x, y)
}

/// The point lies inside the arena or on one of its walls.
pub fn is_in_or_on_wall(walls: &WallPlugin, x: i64, y: i64) -> (inside: bool)
    ensures
        inside == walls.contains(x as int, y as int),
{
    walls.left <= x && x <= walls.right && walls.bottom <= y && y <= walls.top
}

/// Every walk that stays within a wall's length ends on that wall, and so on
/// the arena's outline.
pub proof fn lemma_walk_stays_on_wall(walls: WallPlugin, wall: WallLocation, distance: int)
    requires
        walls.wf(),
        0 <= distance <= walls.side(wall),
    ensures
        walls.on_wall(wall, wall.walk(walls, distance).0, wall.walk(walls, distance).1),
        walls.on_perimeter(wall.walk(walls, distance).0, wall.walk(walls, distance).1),
        wall.walk_fits(walls, distance),
{
}

/// A point on the arena's outline is inside or on the walls: it is never
/// out of the wall.
pub proof fn lemma_outline_is_inside(walls: WallPlugin, x: int, y: int)
    requires
        walls.on_perimeter(x, y),
    ensures
        walls.contains(x, y),
{
}

} // verus!
