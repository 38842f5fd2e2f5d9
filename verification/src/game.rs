//! The game state and its mode machine: one player, one live obstacle, the
//! score, the physics-step time accumulator, and the current mode. The mode
//! machine is the sole writer of the other components. Each tick it takes the
//! elapsed time and the key event of interest from the backend and hands back
//! what to draw and whether the player asked to quit.

use vstd::prelude::*;
use crate::player::{
    Player, PlayerModel, gravity_step, FLAP_VELOCITY, PLAYER_START_X, PLAYER_START_Y,
    TENTHS_PER_CELL,
};
use crate::obstacle::{
    Obstacle, ObstacleModel, gap_size_for, spec_collides, spec_gap_bottom, spec_gap_top,
    BASE_GAP_SIZE, GAP_Y_MAX, GAP_Y_MIN,
};
use bracket_lib::random::RandomNumberGenerator;

verus! {

/// Width of the character grid, in columns.
pub const SCREEN_WIDTH: i32 = 80;

/// Height of the character grid, in rows.
pub const SCREEN_HEIGHT: i32 = 50;

/// Length of one physics step, in microseconds of accumulated elapsed time.
pub const FRAME_DURATION_US: u64 = 75_000;

/// The three modes the game can be in. `Menu` is the initial mode; `End` is
/// reached by dying and left again by restarting.
#[derive(Clone, Copy, Debug, PartialEq, Eq, Structural)]
pub enum GameMode {
    Menu,
    Playing,
    End,
}

/// The key events the game reacts to; every other key is ignored. `Play`
/// selects or confirms in the menu and end screens, `Quit` asks the process to
/// stop, `Flap` is the in-game impulse.
#[derive(Clone, Copy, Debug, PartialEq, Eq, Structural)]
pub enum Input {
    Play,
    Quit,
    Flap,
}

/// What the backend must draw for one tick. In `Playing` the world scrolls:
/// the player sits at the fixed column `PLAYER_START_X` and `obstacle_x` is
/// the obstacle's column on screen. The walls cover the rows `0..gap_top`
/// and `gap_bottom..SCREEN_HEIGHT`.
#[derive(Clone, Copy, Debug, PartialEq, Eq, Structural)]
pub enum Frame {
    Menu,
    Playing { score: i32, player_row: i32, obstacle_x: i32, gap_top: i32, gap_bottom: i32 },
    End { score: i32 },
}

/// One tick's instructions to the backend: the frame to draw, and whether the
/// player asked to quit (the flag is only ever raised, never cleared).
#[derive(Clone, Copy, Debug, PartialEq, Eq, Structural)]
pub struct TickOutput {
    pub frame: Frame,
    pub quit: bool,
}

/// The whole game: mode, player, live obstacle, score, time accumulator, and
/// the injected random generator that draws each obstacle's gap center.
pub struct State {
    pub mode: GameMode,
    pub player: Player,
    /// Elapsed time since the last physics step, in microseconds.
    pub frame_time: u64,
    pub obstacle: Obstacle,
    pub score: i32,
    /// The injected random generator; opaque to the contracts, which say of
    /// each draw only the range it falls in.
    pub rng: RandomNumberGenerator,
}

/// Mathematical model of the game state: everything but the opaque random
/// generator.
pub ghost struct StateModel {
    pub mode: GameMode,
    pub player: PlayerModel,
    pub frame_time: int,
    pub obstacle: ObstacleModel,
    pub score: int,
}

impl View for State {
    type V = StateModel;

    open spec fn view(&self) -> StateModel {
        StateModel {
            mode: self.mode,
            player: self.player@,
            frame_time: self.frame_time as int,
            obstacle: self.obstacle@,
            score: self.score as int,
        }
    }
}

impl StateModel {
    /// Validity: the components are valid, the score is a count, the
    /// accumulator was reset the moment it crossed the physics-step length,
    /// and while playing the player is on screen and the obstacle stays
    /// between the player's column and one screen ahead of it.
    pub open spec fn wf(self) -> bool {
        &&& self.player.wf()
        &&& self.obstacle.wf()
        &&& 0 <= self.score
        &&& 0 <= self.frame_time <= FRAME_DURATION_US
        &&& self.mode == GameMode::Playing ==> {
            &&& self.player.y / (TENTHS_PER_CELL as int) <= SCREEN_HEIGHT
            &&& self.player.x <= self.obstacle.x
            &&& self.obstacle.x <= self.player.x + SCREEN_WIDTH
        }
    }
}

/// The player every game and restart begins with.
pub open spec fn initial_player() -> PlayerModel {
    PlayerModel { x: PLAYER_START_X as int, y: PLAYER_START_Y as int, velocity: 0 }
}

/// A freshly started or restarted game: playing, the initial player, score
/// zero, the accumulator empty, and a full-height gap obstacle one screen
/// ahead. Only the obstacle's randomly drawn gap center is left open, so any
/// two fresh states differ at most there.
pub open spec fn is_fresh(s: StateModel) -> bool {
    &&& s.mode == GameMode::Playing
    &&& s.player == initial_player()
    &&& s.frame_time == 0
    &&& s.score == 0
    &&& s.obstacle.x == SCREEN_WIDTH as int
    &&& s.obstacle.size == BASE_GAP_SIZE as int
    &&& GAP_Y_MIN <= s.obstacle.gap_y < GAP_Y_MAX
}

/// Restart is idempotent in effect: whatever modes two games were in, once
/// restarted they agree on every component, with the obstacle's randomly
/// drawn gap center the only possible difference.
pub proof fn lemma_fresh_states_agree(a: StateModel, b: StateModel)
    requires
        is_fresh(a),
        is_fresh(b),
        a.obstacle.gap_y == b.obstacle.gap_y,
    ensures
        a == b,
{
}

/// Time accumulation and the conditional physics step: the elapsed time joins
/// the accumulator, and once the sum crosses the physics-step length the
/// accumulator resets and the player advances exactly one step.
pub open spec fn physics_applied(s: StateModel, elapsed_us: int) -> StateModel {
    let t = s.frame_time + elapsed_us;
    if t > FRAME_DURATION_US {
        StateModel { frame_time: 0, player: gravity_step(s.player), ..s }
    } else {
        StateModel { frame_time: t, ..s }
    }
}

/// A flap key resets the player's velocity to `FLAP_VELOCITY`; any other (or
/// no) key leaves the state alone.
pub open spec fn flap_applied(s: StateModel, key: Option<Input>) -> StateModel {
    if key == Some(Input::Flap) {
        StateModel { player: PlayerModel { velocity: FLAP_VELOCITY as int, ..s.player }, ..s }
    } else {
        s
    }
}

/// Death: the player's grid row has left the screen below, or the player sits
/// in a wall of the obstacle.
pub open spec fn is_dead(s: StateModel) -> bool {
    ||| s.player.y / (TENTHS_PER_CELL as int) > SCREEN_HEIGHT
    ||| spec_collides(s.obstacle, s.player)
}

/// What one menu tick does: a play key restarts into a fresh game, a quit key
/// raises the quit flag and changes nothing else, anything else changes
/// nothing; the menu frame is drawn regardless.
pub open spec fn menu_transition(
    pre: StateModel,
    key: Option<Input>,
    post: StateModel,
    out: TickOutput,
) -> bool {
    &&& key == Some(Input::Play) ==> is_fresh(post) && !out.quit
    &&& key == Some(Input::Quit) ==> post == pre && out.quit
    &&& key != Some(Input::Play) && key != Some(Input::Quit) ==> post == pre && !out.quit
    &&& out.frame == Frame::Menu
}

/// What one end-screen tick does: the same key handling as the menu, with the
/// death screen showing the score the game ended with.
pub open spec fn end_transition(
    pre: StateModel,
    key: Option<Input>,
    post: StateModel,
    out: TickOutput,
) -> bool {
    &&& key == Some(Input::Play) ==> is_fresh(post) && !out.quit
    &&& key == Some(Input::Quit) ==> post == pre && out.quit
    &&& key != Some(Input::Play) && key != Some(Input::Quit) ==> post == pre && !out.quit
    &&& out.frame matches Frame::End { score } && score as int == pre.score
}

/// The frame a playing tick draws, fixed by the state right after the
/// conditional physics step: the score, the player's grid row at the fixed
/// screen column, and the obstacle's screen column with its gap bounds.
pub open spec fn playing_frame(s: StateModel, f: Frame) -> bool {
    f matches Frame::Playing { score, player_row, obstacle_x, gap_top, gap_bottom }
        && score as int == s.score
        && player_row as int == s.player.y / (TENTHS_PER_CELL as int)
        && obstacle_x as int == s.obstacle.x + PLAYER_START_X - s.player.x
        && gap_top as int == spec_gap_top(s.obstacle)
        && gap_bottom as int == spec_gap_bottom(s.obstacle)
}

/// What one playing tick does, in the order the game applies it: time
/// accumulation with the conditional physics step; the frame drawn from that
/// intermediate state (so a flap of this very tick shows only next frame);
/// the flap; then scoring — once the player's column passes the obstacle's,
/// the score rises by one and a fresh obstacle with a random gap center
/// appears one screen ahead; and last the death check against the obstacle
/// now live, which decides whether the game goes on or ends.
pub open spec fn playing_transition(
    pre: StateModel,
    elapsed_us: int,
    key: Option<Input>,
    post: StateModel,
    out: TickOutput,
) -> bool {
    let stepped = physics_applied(pre, elapsed_us);
    let flapped = flap_applied(stepped, key);
    &&& post.player == flapped.player
    &&& post.frame_time == stepped.frame_time
    &&& if flapped.player.x > pre.obstacle.x {
        &&& post.score == pre.score + 1
        &&& post.obstacle.x == flapped.player.x + SCREEN_WIDTH
        &&& post.obstacle.size == gap_size_for(post.score)
        &&& GAP_Y_MIN <= post.obstacle.gap_y < GAP_Y_MAX
    } else {
        &&& post.score == pre.score
        &&& post.obstacle == pre.obstacle
    }
    &&& post.mode == if is_dead(post) { GameMode::End } else { GameMode::Playing }
    &&& playing_frame(stepped, out.frame)
    &&& !out.quit
}

impl State {
    /// A new game in the menu, owning the injected random generator that will
    /// draw every obstacle's gap center.
    pub fn new(rng: RandomNumberGenerator) -> (s: State)
        ensures
            s@.wf(),
            s@.mode == GameMode::Menu,
            s@.player == initial_player(),
            s@.frame_time == 0,
            s@.score == 0,
            s@.obstacle.x == SCREEN_WIDTH as int,
            s@.obstacle.size == BASE_GAP_SIZE as int,
            GAP_Y_MIN <= s@.obstacle.gap_y < GAP_Y_MAX,
    {
        let mut rng = rng;
        let obstacle = Obstacle::new(SCREEN_WIDTH, 0, &mut rng);
        State {
            mode: GameMode::Menu,
            player: Player::new(PLAYER_START_X, PLAYER_START_Y),
            frame_time: 0,
            obstacle,
            score: 0,
            rng,
        }
    }

    /// Restart from any mode: back to playing with the initial player, score
    /// zero, an empty accumulator, and a fresh full-gap obstacle one screen
    /// ahead — the same state every time, modulo the random gap center.
    pub fn restart(&mut self)
        ensures
            is_fresh(final(self)@),
            final(self)@.wf(),
    {
        self.mode = GameMode::Playing;
        self.player = Player::new(PLAYER_START_X, PLAYER_START_Y);
        self.obstacle = Obstacle::new(SCREEN_WIDTH, 0, &mut self.rng);
        self.frame_time = 0;
        self.score = 0;
    }

    /// One menu tick: a play key restarts, a quit key raises the quit flag
    /// and leaves the mode unchanged, anything else does nothing.
    pub fn main_menu(&mut self, key: Option<Input>) -> (out: TickOutput)
        ensures
            menu_transition(old(self)@, key, final(self)@, out),
            old(self)@.wf() ==> final(self)@.wf(),
    {
        let mut quit = false;
        match key {
            Some(Input::Play) => self.restart(),
            Some(Input::Quit) => quit = true,
            _ => {}
        }
        TickOutput { frame: Frame::Menu, quit }
    }

    /// One end-screen tick: shows the final score; keys act as in the menu.
    pub fn dead(&mut self, key: Option<Input>) -> (out: TickOutput)
        ensures
            end_transition(old(self)@, key, final(self)@, out),
            old(self)@.wf() ==> final(self)@.wf(),
    {
        let score = self.score;
        let mut quit = false;
        match key {
            Some(Input::Play) => self.restart(),
            Some(Input::Quit) => quit = true,
            _ => {}
        }
        TickOutput { frame: Frame::End { score }, quit }
    }

    /// One playing tick, in the original order: accumulate time and step the
    /// physics at most once; fix the frame to draw; apply a flap; score and
    /// replace the obstacle once passed; check for death last.
    pub fn playing(&mut self, elapsed_us: u64, key: Option<Input>) -> (out: TickOutput)
        requires
            old(self)@.wf(),
            old(self)@.mode == GameMode::Playing,
            old(self)@.player.x + 1 + SCREEN_WIDTH <= i32::MAX,
            old(self)@.score < i32::MAX,
            elapsed_us <= u64::MAX - FRAME_DURATION_US,
        ensures
            playing_transition(old(self)@, elapsed_us as int, key, final(self)@, out),
            final(self)@.wf(),
    {
        self.frame_time = self.frame_time + elapsed_us;
        if self.frame_time > FRAME_DURATION_US {
            self.frame_time = 0;
            self.player.gravity_and_move();
        }

        let bounds = self.obstacle.gap_bounds();
        let frame = Frame::Playing {
            score: self.score,
            player_row: self.player.screen_row(),
            obstacle_x: self.obstacle.screen_x(self.player.x),
            gap_top: bounds.0,
            gap_bottom: bounds.1,
        };

        match key {
            Some(Input::Flap) => self.player.flap(),
            _ => {}
        }

        if self.player.x > self.obstacle.x {
            self.score = self.score + 1;
            self.obstacle = Obstacle::new(self.player.x + SCREEN_WIDTH, self.score, &mut self.rng);
        }

        let row = self.player.screen_row();
        if row > SCREEN_HEIGHT || self.obstacle.collides_with(&self.player) {
            self.mode = GameMode::End;
        }

        TickOutput { frame, quit: false }
    }

    /// One tick of the whole game: dispatch on the current mode. The bounds
    /// asked for while playing are machine limits: the player's column and
    /// the score each grow by at most one per tick, and the accumulator holds
    /// at most one physics step's worth of time.
    pub fn tick(&mut self, elapsed_us: u64, key: Option<Input>) -> (out: TickOutput)
        requires
            old(self)@.wf(),
            old(self)@.mode == GameMode::Playing ==> {
                &&& old(self)@.player.x + 1 + SCREEN_WIDTH <= i32::MAX
                &&& old(self)@.score < i32::MAX
                &&& elapsed_us <= u64::MAX - FRAME_DURATION_US
            },
        ensures
            final(self)@.wf(),
            match old(self)@.mode {
                GameMode::Menu => menu_transition(old(self)@, key, final(self)@, out),
                GameMode::Playing => playing_transition(
                    old(self)@,
                    elapsed_us as int,
                    key,
                    final(self)@,
                    out,
                ),
                GameMode::End => end_transition(old(self)@, key, final(self)@, out),
            },
    {
        match self.mode {
            GameMode::Menu => self.main_menu(key),
            GameMode::Playing => self.playing(elapsed_us, key),
            GameMode::End => self.dead(key),
        }
    }
}

} // verus!
