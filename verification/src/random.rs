//! What a spawn leaves to chance: the wall, the place on it, and the speed
//! along each axis.

use rand::Rng;
use vstd::prelude::*;
use crate::wall::WallLocation;

verus! {

/// What one ball's spawn leaves to chance. The three words are used by
/// their fractions: the upper 24 bits of a word, which are the bits that
/// `rand` makes a float between 0 and 1 of.
#[derive(Clone, Copy, Debug, PartialEq, Eq, Structural)]
pub struct Draw {
    /// The wall on which the ball appears.
    pub wall: WallLocation,
    /// How far along the wall it appears, as a fraction of the wall's
    /// length.
    pub along: u32,
    /// Where in the fluctuation range the speed along the x axis lies.
    pub speed_x: u32,
    /// Where in the fluctuation range the speed along the y axis lies.
    pub speed_y: u32,
}

/// Calls `rand::random` for a `u32`. Nothing is claimed of the word that
/// comes back.
#[verifier::external_body]
fn random_word() -> (word: u32) {
    rand::random::<u32>()
}

/// Calls `Rng::gen_range` on `rand::thread_rng()` with the range from 0 up
/// to, and without, `len`. The claim is that the index lies in that range;
/// an empty range, on which `gen_range` panics, is left out.
#[verifier::external_body]
fn random_index(len: usize) -> (index: usize)
    requires
        0 < len,
    ensures
        index < len,
{
    rand::thread_rng().gen_range(0..len)
}

/// An index below `len`, picked at random.
pub fn pick_index(len: usize) -> (index: Option<usize>)
    ensures
        len == 0 <==> index.is_none(),
        index matches Some(i) ==> i < len,
{
    if len == 0 {
        None
    } else {
        Some(random_index(len))
    }
}

impl Draw {
    /// Draws at random: the wall with equal chances among the four, each
    /// word from all of `u32`.
    pub fn random() -> (draw: Draw)
        ensures
            WallLocation::all().contains(draw.wall),
    {
        let walls = WallLocation::values();
        let i: usize = random_index(walls.len());
        Draw {
            wall: walls[i],
            along: random_word(),
            speed_x: random_word(),
            speed_y: random_word(),
        }
    }

    /// As many random draws as asked for.
    pub fn random_many(count: usize) -> (draws: Vec<Draw>)
        ensures
            draws.len() == count,
    {
        let mut draws: Vec<Draw> = Vec::new();
        while draws.len() < count
            invariant
                draws.len() <= count,
            decreases count - draws.len(),
        {
            draws.push(Draw::random());
        }
        draws
    }
}

} // verus!
