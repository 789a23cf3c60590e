//! The player: a disc that moves by the pressed directions and stays
//! inside the walls.

use vstd::prelude::*;
use crate::motion::travel;
use crate::motion::travelled;
use crate::wall::Point;
use crate::wall::WallPlugin;

verus! {

/// The radius of the game's own player.
pub const PLAYER_RADIUS: u32 = 5_000_000;

/// The speed of the game's own player.
pub const PLAYER_SPEED: u32 = 300_000_000;

/// The player's settings.
#[derive(Clone, Copy, Debug, PartialEq, Eq, Structural)]
pub struct PlayerPlugin {
    /// The radius of the player's disc, in steps.
    pub radius: u32,
    /// The player's speed along an axis, in steps per second.
    pub speed: u32,
}

/// The player.
#[derive(Clone, Copy, Debug, PartialEq, Eq, Structural)]
pub struct Player {
    pub pos: Point,
    pub radius: u32,
    pub speed: u32,
}

/// The directions that are held down during a tick.
#[derive(Clone, Copy, Debug, PartialEq, Eq, Structural)]
pub struct Intent {
    pub up: bool,
    pub down: bool,
    pub left: bool,
    pub right: bool,
}

impl Intent {
    /// No direction is held down.
    pub fn none() -> (intent: Intent)
        ensures
            intent == (Intent { up: false, down: false, left: false, right: false }),
    {
        Intent { up: false, down: false, left: false, right: false }
    }
}

/// The way made along one axis in a tick: `step` forwards where the forward
/// direction is held down, `step` backwards where the backward one is; held
/// down together they cancel.
pub open spec fn pushed(forward: bool, backward: bool, step: int) -> int {
    (if forward {
        step
    } else {
        0
    }) - (if backward {
        step
    } else {
        0
    })
}

/// The value of the range from `low` to `high` that is nearest to `value`.
pub open spec fn clamped(value: int, low: int, high: int) -> int {
    if value < low {
        low
    } else if value > high {
        high
    } else {
        value
    }
}

/// The arena has room for a disc of the given radius.
pub open spec fn has_room(walls: WallPlugin, radius: u32) -> bool {
    walls.wf() && 2 * radius <= walls.width() && 2 * radius <= walls.height()
}

/// Tests whether the arena has room for a disc of the given radius.
pub fn room_for(walls: &WallPlugin, radius: u32) -> (ok: bool)
    ensures
        ok == has_room(*walls, radius),
{
    walls.is_valid() && 2 * (radius as i64) <= walls.right - walls.left && 2 * (radius as i64)
        <= walls.top - walls.bottom
}

impl Player {
    /// The player's disc does not reach over a wall.
    pub open spec fn within(self, walls: WallPlugin) -> bool {
        &&& walls.left + self.radius <= self.pos.x <= walls.right - self.radius
        &&& walls.bottom + self.radius <= self.pos.y <= walls.top - self.radius
    }

    /// The player after a tick of `elapsed` nanoseconds with the given
    /// directions held down. Each axis moves on its own, so two directions
    /// at once are faster than one, and the disc is kept from reaching over
    /// a wall.
    pub open spec fn moved(self, intent: Intent, elapsed: u64, walls: WallPlugin) -> Player {
        Player {
            pos: Point {
                x: clamped(
                    self.pos.x + pushed(
                        intent.right,
                        intent.left,
                        travel(self.speed as int, elapsed as int),
                    ),
                    walls.left + self.radius,
                    walls.right - self.radius,
                ) as i64,
                y: clamped(
                    self.pos.y + pushed(
                        intent.up,
                        intent.down,
                        travel(self.speed as int, elapsed as int),
                    ),
                    walls.bottom + self.radius,
                    walls.top - self.radius,
                ) as i64,
            },
            radius: self.radius,
            speed: self.speed,
        }
    }
}

impl PlayerPlugin {
    /// The game's own player.
    pub fn standard() -> (settings: PlayerPlugin)
        ensures
            settings == (PlayerPlugin { radius: PLAYER_RADIUS, speed: PLAYER_SPEED }),
    {
        PlayerPlugin { radius: PLAYER_RADIUS, speed: PLAYER_SPEED }
    }

    /// The player as a round begins: in the middle of the arena.
    pub open spec fn fresh(self, walls: WallPlugin) -> Player {
        Player {
            pos: Point { x: walls.center().0 as i64, y: walls.center().1 as i64 },
            radius: self.radius,
            speed: self.speed,
        }
    }
}

/// A new player in the middle of the arena.
pub fn spawn_player(settings: &PlayerPlugin, walls: &WallPlugin) -> (player: Player)
    requires
        has_room(*walls, settings.radius),
    ensures
        player == settings.fresh(*walls),
        player.pos@ == walls.center(),
        player.within(*walls),
{
    Player { pos: walls.center_pos(), radius: settings.radius, speed: settings.speed }
}

/// Takes the player away, if there is one.
pub fn despawn_player(slot: &mut Option<Player>)
    ensures
        *final(slot) == None::<Player>,
{
    *slot = None;
}

/// Moves the player by the directions held down for `elapsed` nanoseconds.
pub fn move_player(player: &mut Player, intent: &Intent, elapsed: u64, walls: &WallPlugin)
    requires
        has_room(*walls, old(player).radius),
    ensures
        *final(player) == old(player).moved(*intent, elapsed, *walls),
        final(player).within(*walls),
{
    let step: i128 = travelled(player.speed as i64, elapsed);
    let mut delta_x: i128 = 0;
    let mut delta_y: i128 = 0;
    if intent.up {
        delta_y = delta_y + step;
    }
    if intent.down {
        delta_y = delta_y - step;
    }
    if intent.left {
        delta_x = delta_x - step;
    }
    if intent.right {
        delta_x = delta_x + step;
    }
    let radius: i64 = player.radius as i64;
    let new_x: i128 = (player.pos.x as i128) + delta_x;
    let new_y: i128 = (player.pos.y as i128) + delta_y;
    player.pos = Point {
        x: clamp(new_x, walls.left + radius, walls.right - radius),
        y: clamp(new_y, walls.bottom + radius, walls.top - radius),
    };
}

/// The value of the range from `low` to `high` that is nearest to `value`.
pub fn clamp(value: i128, low: i64, high: i64) -> (r: i64)
    requires
        low <= high,
    ensures
        r == clamped(value as int, low as int, high as int),
        low <= r <= high,
{
    if value < low as i128 {
        low
    } else if value > high as i128 {
        high
    } else {
        value as i64
    }
}

} // verus!
