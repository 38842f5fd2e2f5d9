//! The player-controlled glyph: horizontal world position, vertical position
//! and vertical velocity, with gravity and flap physics.
//!
//! `y` and `velocity` are in tenths of a grid cell, so one physics step adds
//! exactly `GRAVITY_STEP` (one tenth) to the velocity up to `VELOCITY_CAP`
//! (two cells), and a flap sets the velocity to `FLAP_VELOCITY` (minus one
//! cell). The grid row a position falls on is its value divided by
//! `TENTHS_PER_CELL`.

use vstd::prelude::*;

verus! {

/// Tenths of a cell per grid cell: the fixed-point scale of `y` and `velocity`.
pub const TENTHS_PER_CELL: i32 = 10;

/// Velocity gained per physics step, in tenths of a cell.
pub const GRAVITY_STEP: i32 = 1;

/// Largest downward velocity gravity can build up, in tenths of a cell.
pub const VELOCITY_CAP: i32 = 20;

/// Velocity immediately after a flap, in tenths of a cell (upward).
pub const FLAP_VELOCITY: i32 = -10;

/// World column the player starts at.
pub const PLAYER_START_X: i32 = 5;

/// Vertical position the player starts at, in tenths of a cell.
pub const PLAYER_START_Y: i32 = 250;

pub struct Player {
    /// World-horizontal position; advances by exactly one per physics step.
    pub x: i32,
    /// Vertical position in tenths of a cell, clamped to stay non-negative.
    pub y: i32,
    /// Vertical speed in tenths of a cell per physics step.
    pub velocity: i32,
}

/// Mathematical model of a player: the same three fields over `int`.
pub ghost struct PlayerModel {
    pub x: int,
    pub y: int,
    pub velocity: int,
}

impl View for Player {
    type V = PlayerModel;

    open spec fn view(&self) -> PlayerModel {
        PlayerModel { x: self.x as int, y: self.y as int, velocity: self.velocity as int }
    }
}

impl PlayerModel {
    /// Validity: the player never leaves the world to the left or above the
    /// clamped floor, and gravity and flap keep the velocity between the flap
    /// impulse and the gravity cap.
    pub open spec fn wf(self) -> bool {
        &&& 0 <= self.x
        &&& 0 <= self.y
        &&& FLAP_VELOCITY <= self.velocity <= VELOCITY_CAP
    }
}

/// One physics step: gravity raises the velocity by `GRAVITY_STEP` while it is
/// below `VELOCITY_CAP`, the velocity moves `y` (clamped at the floor), and the
/// player advances one world column.
pub open spec fn gravity_step(p: PlayerModel) -> PlayerModel {
    let v = if p.velocity < VELOCITY_CAP { p.velocity + GRAVITY_STEP } else { p.velocity };
    let y = if p.y + v < 0 { 0 } else { p.y + v };
    PlayerModel { x: p.x + 1, y, velocity: v }
}

/// `n` physics steps in a row with no flap in between.
pub open spec fn gravity_steps(p: PlayerModel, n: nat) -> PlayerModel
    decreases n,
{
    if n == 0 {
        p
    } else {
        gravity_step(gravity_steps(p, (n - 1) as nat))
    }
}

/// Along any sequence of physics steps with no flap, the player stays valid,
/// the velocity never decreases from one step to the next and never exceeds
/// `VELOCITY_CAP`, and `y` never goes negative.
pub proof fn lemma_gravity_steps_monotone(p: PlayerModel, n: nat)
    requires
        p.wf(),
    ensures
        gravity_steps(p, n).wf(),
        gravity_steps(p, n).y >= 0,
        gravity_steps(p, n).velocity <= VELOCITY_CAP,
        gravity_steps(p, n).velocity >= p.velocity,
        gravity_steps(p, n + 1).velocity >= gravity_steps(p, n).velocity,
    decreases n,
{
    if n > 0 {
        lemma_gravity_steps_monotone(p, (n - 1) as nat);
    }
    assert(gravity_steps(p, n + 1) == gravity_step(gravity_steps(p, n)));
}

impl Player {
    /// A player at the given position with no vertical speed.
    pub fn new(x: i32, y: i32) -> (p: Player)
        requires
            0 <= x,
            0 <= y,
        ensures
            p@ == (PlayerModel { x: x as int, y: y as int, velocity: 0 }),
            p@.wf(),
    {
        Player { x, y, velocity: 0 }
    }

    /// One physics step: apply gravity to the velocity, move by the new
    /// velocity clamping at the floor, and advance one world column.
    pub fn gravity_and_move(&mut self)
        requires
            old(self)@.wf(),
            old(self)@.x < i32::MAX,
            old(self)@.y + VELOCITY_CAP <= i32::MAX,
        ensures
            final(self)@ == gravity_step(old(self)@),
            final(self)@.wf(),
    {
        if self.velocity < VELOCITY_CAP {
            self.velocity = self.velocity + GRAVITY_STEP;
        }
        self.y = self.y + self.velocity;
        if self.y < 0 {
            self.y = 0;
        }
        self.x = self.x + 1;
    }

    /// A flap resets the velocity to exactly `FLAP_VELOCITY`, whatever it was.
    pub fn flap(&mut self)
        ensures
            final(self)@ == (PlayerModel { velocity: FLAP_VELOCITY as int, ..old(self)@ }),
            final(self).velocity == FLAP_VELOCITY,
    {
        self.velocity = FLAP_VELOCITY;
    }

    /// The grid row the player is drawn on: `y` truncated to whole cells.
    pub fn screen_row(&self) -> (row: i32)
        requires
            self@.wf(),
        ensures
            row == self@.y / (TENTHS_PER_CELL as int),
    {
        self.y / TENTHS_PER_CELL
    }
}

} // verus!
