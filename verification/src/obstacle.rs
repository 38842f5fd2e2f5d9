//! A scrolling obstacle: a pair of vertical walls at one world column with a
//! passable gap between them. The gap center is drawn at random when the
//! obstacle is created; the gap shrinks linearly as the score rises, floored
//! at a minimum height.

use vstd::prelude::*;
use crate::game::SCREEN_WIDTH;
use crate::player::{PlayerModel, Player, TENTHS_PER_CELL, PLAYER_START_X};
use crate::rng::random_range;
use bracket_lib::random::RandomNumberGenerator;

verus! {

/// Smallest grid row (inclusive) the gap center can be drawn at.
pub const GAP_Y_MIN: i32 = 10;

/// Grid row one past the largest the gap center can be drawn at.
pub const GAP_Y_MAX: i32 = 40;

/// Gap height at score zero; the gap loses one cell per point scored.
pub const BASE_GAP_SIZE: i32 = 20;

/// The gap never shrinks below this height.
pub const MIN_GAP_SIZE: i32 = 2;

pub struct Obstacle {
    /// World column of the wall pair.
    pub x: i32,
    /// Grid row of the gap's center, drawn from `GAP_Y_MIN..GAP_Y_MAX`.
    pub gap_y: i32,
    /// Total gap height in grid rows.
    pub size: i32,
}

/// Mathematical model of an obstacle: the same three fields over `int`.
pub ghost struct ObstacleModel {
    pub x: int,
    pub gap_y: int,
    pub size: int,
}

impl View for Obstacle {
    type V = ObstacleModel;

    open spec fn view(&self) -> ObstacleModel {
        ObstacleModel { x: self.x as int, gap_y: self.gap_y as int, size: self.size as int }
    }
}

impl ObstacleModel {
    /// Validity: the gap center lies in the random draw's range and the size
    /// between the floor and the score-zero height.
    pub open spec fn wf(self) -> bool {
        &&& GAP_Y_MIN <= self.gap_y < GAP_Y_MAX
        &&& MIN_GAP_SIZE <= self.size <= BASE_GAP_SIZE
    }
}

/// Gap height for a given score: `BASE_GAP_SIZE` minus the score, floored at
/// `MIN_GAP_SIZE`.
pub open spec fn gap_size_for(score: int) -> int {
    if BASE_GAP_SIZE - score < MIN_GAP_SIZE {
        MIN_GAP_SIZE as int
    } else {
        BASE_GAP_SIZE - score
    }
}

/// First grid row of the gap: half the gap height (truncated) above its center.
pub open spec fn spec_gap_top(o: ObstacleModel) -> int {
    o.gap_y - o.size / 2
}

/// Last grid row of the gap: the same truncated half height below its center.
pub open spec fn spec_gap_bottom(o: ObstacleModel) -> int {
    o.gap_y + o.size / 2
}

/// Collision: only at the single frame where the player's world column equals
/// the obstacle's, and only when the player's grid row lies strictly outside
/// the gap.
pub open spec fn spec_collides(o: ObstacleModel, p: PlayerModel) -> bool {
    &&& p.x == o.x
    &&& {
        ||| p.y / (TENTHS_PER_CELL as int) < spec_gap_top(o)
        ||| p.y / (TENTHS_PER_CELL as int) > spec_gap_bottom(o)
    }
}

impl Obstacle {
    /// An obstacle at world column `x` whose gap center is drawn at random
    /// from `GAP_Y_MIN..GAP_Y_MAX` by the injected generator, and whose gap
    /// height shrinks with the score.
    pub fn new(x: i32, score: i32, rng: &mut RandomNumberGenerator) -> (o: Obstacle)
        requires
            0 <= score,
        ensures
            o@.x == x as int,
            o@.size == gap_size_for(score as int),
            GAP_Y_MIN <= o@.gap_y < GAP_Y_MAX,
            o@.wf(),
    {
        let gap_y = random_range(rng, GAP_Y_MIN, GAP_Y_MAX);
        let shrunk = BASE_GAP_SIZE - score;
        let size = if shrunk < MIN_GAP_SIZE { MIN_GAP_SIZE } else { shrunk };
        Obstacle { x, gap_y, size }
    }

    /// The gap's two bounds, `(gap top, gap bottom)`: the walls are drawn on
    /// the rows above the top and on the bottom and the rows below it, and
    /// only the rows strictly outside both bounds are lethal. Both bounds sit
    /// the same truncated half height from the center, so they always span
    /// `2 * (size / 2)` rows, one fewer than `size` when `size` is odd.
    pub fn gap_bounds(&self) -> (b: (i32, i32))
        requires
            self@.wf(),
        ensures
            b.0 == spec_gap_top(self@),
            b.1 == spec_gap_bottom(self@),
            b.1 - b.0 == 2 * (self@.size / 2),
    {
        let half_size = self.size / 2;
        (self.gap_y - half_size, self.gap_y + half_size)
    }

    /// Where the obstacle falls on screen: the world scrolls so that the
    /// player's world column is pinned to the fixed screen column
    /// `PLAYER_START_X`.
    pub fn screen_x(&self, player_x: i32) -> (sx: i32)
        requires
            player_x <= self@.x + 1,
            self@.x <= player_x + SCREEN_WIDTH,
        ensures
            sx == self@.x + PLAYER_START_X - player_x,
    {
        (self.x - player_x) + PLAYER_START_X
    }

    /// True exactly when the player's world column equals the obstacle's and
    /// the player's grid row is outside the gap. In particular, whenever the
    /// columns differ there is no collision, whatever the two states are.
    pub fn collides_with(&self, player: &Player) -> (hit: bool)
        requires
            self@.wf(),
            player@.wf(),
        ensures
            hit == spec_collides(self@, player@),
            player@.x != self@.x ==> !hit,
    {
        let x_match = player.x == self.x;
        let bounds = self.gap_bounds();
        let row = player.y / TENTHS_PER_CELL;
        x_match && (row < bounds.0 || row > bounds.1)
    }
}

} // verus!
