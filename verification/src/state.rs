//! The state of the game, the requests that change it, and the collisions
//! that end a round.

use vstd::prelude::*;
use crate::ball::Ball;
use crate::motion::distance_sq;
use crate::player::Player;

verus! {

/// The state of the game.
#[derive(Clone, Copy, Debug, PartialEq, Eq, Structural)]
pub enum GameState {
    /// Before the first round.
    Menu,
    /// A round is under way.
    Running,
    /// A round has ended and the next one has not begun.
    Paused,
}

/// The settings of the game's states.
#[derive(Clone, Copy, Debug, PartialEq, Eq, Structural)]
pub struct StatePlugin {
    /// The state to which a collision leads.
    pub on_collision: GameState,
}

impl StatePlugin {
    /// A collision ends the round.
    pub open spec fn wf(self) -> bool {
        self.on_collision != GameState::Running
    }

    /// The game's own states: a collision pauses the game.
    pub fn standard() -> (settings: StatePlugin)
        ensures
            settings.wf(),
            settings == (StatePlugin { on_collision: GameState::Paused }),
    {
        StatePlugin { on_collision: GameState::Paused }
    }

    /// Tests the well-formedness of the settings.
    pub fn is_valid(&self) -> (ok: bool)
        ensures
            ok == self.wf(),
    {
        match self.on_collision {
            GameState::Running => false,
            _ => true,
        }
    }
}

/// The square of the distance below which two discs touch.
pub open spec fn threshold_sq(player_radius: u32, ball_radius: u32) -> int {
    (player_radius + ball_radius) * (player_radius + ball_radius)
}

/// The ball touches the player: their centres are closer than the sum of
/// their radii.
pub open spec fn touches(player: Player, ball: Ball) -> bool {
    distance_sq(player.pos@, ball.pos@) < threshold_sq(player.radius, ball.radius)
}

/// Some ball touches the player.
pub open spec fn any_touch(player: Player, balls: Seq<Ball>) -> bool {
    exists|i: int| 0 <= i < balls.len() && touches(player, #[trigger] balls[i])
}

/// Whether two discs whose centres are at the given squared distance
/// touch.
pub fn within_reach(distance_sq: u128, player_radius: u32, ball_radius: u32) -> (hit: bool)
    ensures
        hit == (distance_sq < threshold_sq(player_radius, ball_radius)),
{
    let reach: u128 = (player_radius as u128) + (ball_radius as u128);
    assert(reach * reach <= 0x1_ffff_fffe * 0x1_ffff_fffe) by (nonlinear_arith)
        requires
            0 <= reach <= 0x1_ffff_fffe,
    ;
    distance_sq < reach * reach
}

/// The magnitude of the difference of two coordinates.
fn gap(a: i64, b: i64) -> (d: u128)
    ensures
        d == if a >= b {
            a - b
        } else {
            b - a
        },
        d <= 0xffff_ffff_ffff_ffff,
{
    if a >= b {
        ((a as i128) - (b as i128)) as u128
    } else {
        ((b as i128) - (a as i128)) as u128
    }
}

/// Whether the ball touches the player.
pub fn collides(player: &Player, ball: &Ball) -> (hit: bool)
    ensures
        hit == touches(*player, *ball),
{
    let gap_x: u128 = gap(ball.pos.x, player.pos.x);
    let gap_y: u128 = gap(ball.pos.y, player.pos.y);
    assert(gap_x * gap_x <= 0xffff_ffff_ffff_ffff * 0xffff_ffff_ffff_ffff && gap_x * gap_x == (
    ball.pos.x - player.pos.x) * (ball.pos.x - player.pos.x)) by (nonlinear_arith)
        requires
            0 <= gap_x <= 0xffff_ffff_ffff_ffff,
            gap_x == ball.pos.x - player.pos.x || gap_x == player.pos.x - ball.pos.x,
    ;
    assert(gap_y * gap_y <= 0xffff_ffff_ffff_ffff * 0xffff_ffff_ffff_ffff && gap_y * gap_y == (
    ball.pos.y - player.pos.y) * (ball.pos.y - player.pos.y)) by (nonlinear_arith)
        requires
            0 <= gap_y <= 0xffff_ffff_ffff_ffff,
            gap_y == ball.pos.y - player.pos.y || gap_y == player.pos.y - ball.pos.y,
    ;
    let square_x: u128 = gap_x * gap_x;
    let square_y: u128 = gap_y * gap_y;
    match square_x.checked_add(square_y) {
        Some(square) => within_reach(square, player.radius, ball.radius),
        None => {
            assert(threshold_sq(player.radius, ball.radius) <= 0x1_ffff_fffe * 0x1_ffff_fffe)
                by (nonlinear_arith);
            false
        },
    }
}

/// Asks for the state to which a collision leads, where some ball touches
/// the player. However many balls touch, that is one request.
pub fn pause_if_collision(
    player: &Player,
    balls: &Vec<Ball>,
    on_collision: GameState,
    next_state: &mut Option<GameState>,
)
    ensures
        *final(next_state) == if any_touch(*player, balls@) {
            Some(on_collision)
        } else {
            *old(next_state)
        },
{
    let mut hit: bool = false;
    let mut i: usize = 0;
    while i < balls.len()
        invariant
            i <= balls.len(),
            hit == any_touch(*player, balls@.take(i as int)),
        decreases balls.len() - i,
    {
        let here: bool = collides(player, &balls[i]);
        proof {
            let before = balls@.take(i as int);
            let upto = balls@.take(i + 1);
            assert(upto[i as int] == balls@[i as int]);
            if any_touch(*player, before) {
                let k = choose|k: int| 0 <= k < before.len() && touches(*player, before[k]);
                assert(upto[k] == before[k]);
            }
            if any_touch(*player, upto) {
                let k = choose|k: int| 0 <= k < upto.len() && touches(*player, upto[k]);
                if k < i {
                    assert(before[k] == upto[k]);
                }
            }
        }
        hit = hit || here;
        i = i + 1;
    }
    assert(balls@.take(balls.len() as int) =~= balls@);
    if hit {
        *next_state = Some(on_collision);
    }
}

/// Asks for a round to begin while the signal to go on is given.
pub fn handle_continue_input(go_on: bool, next_state: &mut Option<GameState>)
    ensures
        *final(next_state) == if go_on {
            Some(GameState::Running)
        } else {
            *old(next_state)
        },
{
    if go_on {
        *next_state = Some(GameState::Running);
    }
}

} // verus!
