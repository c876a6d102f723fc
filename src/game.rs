use vstd::prelude::*;
use crate::obstacle::{gap_size, Obstacle, START_GAP_SIZE};
use crate::player::Player;
use crate::{SCREEN_HEIGHT, SCREEN_WIDTH};

verus! {

/// Time between two physics steps, in microseconds (75 ms).
pub const FRAME_DURATION_US: u64 = 75_000;

/// Column the player starts at.
pub const START_X: i32 = 5;

/// Row the player starts at.
pub const START_Y: i32 = 25;

/// The phase the game is in.
#[derive(Clone, Copy, Debug, PartialEq, Eq, Structural)]
pub enum GameMode {
    Menu,
    Playing,
    Ended,
}

/// The keys the game reacts to; any other key is `Other`.
#[derive(Clone, Copy, Debug, PartialEq, Eq, Structural)]
pub enum Key {
    /// Play, or play again.
    P,
    /// Quit.
    Q,
    /// Flap.
    Space,
    Other,
}

/// Whether time enough has built up for a physics step.
pub open spec fn physics_due(frame_time_us: int, elapsed_us: int) -> bool {
    frame_time_us + elapsed_us > FRAME_DURATION_US
}

/// The whole game: its phase, the player, the one live obstacle, the score, and the
/// time built up since the last physics step.
#[derive(Clone, Copy, Debug, PartialEq, Eq)]
pub struct Game {
    pub mode: GameMode,
    pub player: Player,
    pub obstacle: Obstacle,
    /// Obstacles passed since the game started.
    pub score: i32,
    /// Microseconds since the last physics step.
    pub frame_time_us: u64,
}

impl Game {
    /// The game's invariant.
    pub open spec fn wf(self) -> bool {
        &&& self.player.wf()
        &&& self.obstacle.wf()
        &&& 0 <= self.score
        // each pass puts the next obstacle more than a screen further on
        &&& self.mode != GameMode::Menu ==> self.score + START_X + SCREEN_WIDTH <= self.obstacle.x
        &&& self.frame_time_us <= FRAME_DURATION_US
        &&& 0 <= self.player.y <= SCREEN_HEIGHT + 2
        &&& self.mode == GameMode::Playing ==> self.player.y <= SCREEN_HEIGHT
    }

    /// Room for one more tick of play without leaving the `i32` range.
    pub open spec fn has_room(self) -> bool {
        self.player.x < i32::MAX - SCREEN_WIDTH
    }

    /// The state every start and restart produces (the gap's row is random).
    pub open spec fn fresh_start(self) -> bool {
        &&& self.mode == GameMode::Playing
        &&& self.player == Player { x: START_X, y: START_Y, velocity: 0 }
        &&& self.score == 0
        &&& self.frame_time_us == 0
        &&& self.obstacle.x == START_X + SCREEN_WIDTH
        &&& self.obstacle.size == START_GAP_SIZE
        &&& self.obstacle.wf()
    }

    /// The player after a tick of play: at most one physics step, then a flap
    /// if `Space` was pressed.
    pub open spec fn moved_player(self, elapsed_us: u32, key: Option<Key>) -> Player {
        let p = if physics_due(self.frame_time_us as int, elapsed_us as int) {
            self.player.stepped()
        } else {
            self.player
        };
        if key == Some(Key::Space) {
            p.flapped()
        } else {
            p
        }
    }

    /// What a menu or game-over prompt does with `key`: `P` starts afresh, `Q`
    /// asks to quit and changes nothing, any other key (or none) changes nothing.
    pub open spec fn prompt_outcome(self, next: Game, key: Option<Key>, quit: bool) -> bool {
        &&& quit == (key == Some(Key::Q))
        &&& key == Some(Key::P) ==> next.fresh_start()
        &&& key != Some(Key::P) ==> next == self
    }

    /// What one tick of play does: time builds up and gates one physics step, a
    /// flap applies at once, passing the obstacle scores a point and brings the
    /// next one a screen ahead, and falling out or hitting the wall ends the game.
    pub open spec fn play_outcome(self, next: Game, elapsed_us: u32, key: Option<Key>) -> bool {
        let p = self.moved_player(elapsed_us, key);
        &&& next.frame_time_us == if physics_due(self.frame_time_us as int, elapsed_us as int) {
            0
        } else {
            self.frame_time_us + elapsed_us
        }
        &&& next.player == p
        &&& p.x > self.obstacle.x ==> {
            &&& next.score == self.score + 1
            &&& next.obstacle.x == p.x + SCREEN_WIDTH
            &&& next.obstacle.size == gap_size(next.score as int)
        }
        &&& p.x <= self.obstacle.x ==> next.score == self.score && next.obstacle == self.obstacle
        &&& next.mode == if p.y > SCREEN_HEIGHT || next.obstacle.collides(p) {
            GameMode::Ended
        } else {
            GameMode::Playing
        }
    }

    /// A game at the menu, with the player at its start and an obstacle a screen
    /// from the left edge.
    pub fn new() -> (r: Game)
        ensures
            r.mode == GameMode::Menu,
            r.player == (Player { x: START_X, y: START_Y, velocity: 0 }),
            r.score == 0,
            r.frame_time_us == 0,
            r.obstacle.x == SCREEN_WIDTH,
            r.obstacle.size == START_GAP_SIZE,
            r.wf(),
    {
        Game {
            mode: GameMode::Menu,
            player: Player::new(START_X, START_Y),
            obstacle: Obstacle::new(SCREEN_WIDTH, 0),
            score: 0,
            frame_time_us: 0,
        }
    }

    /// Starts (or restarts) play from scratch.
    pub fn start(&mut self)
        ensures
            final(self).fresh_start(),
            final(self).wf(),
    {
        self.mode = GameMode::Playing;
        self.player = Player::new(START_X, START_Y);
        self.frame_time_us = 0;
        self.score = 0;
        self.obstacle = Obstacle::new(START_X + SCREEN_WIDTH, self.score);
    }

    /// The menu's handling of this tick's key; returns whether to quit.
    pub fn menu(&mut self, key: Option<Key>) -> (quit: bool)
        requires
            old(self).wf(),
        ensures
            old(self).prompt_outcome(*final(self), key, quit),
            final(self).wf(),
    {
        match key {
            Some(Key::P) => {
                self.start();
                false
            },
            Some(Key::Q) => true,
            _ => false,
        }
    }

    /// The game-over screen's handling of this tick's key; returns whether to quit.
    pub fn dead(&mut self, key: Option<Key>) -> (quit: bool)
        requires
            old(self).wf(),
        ensures
            old(self).prompt_outcome(*final(self), key, quit),
            final(self).wf(),
    {
        match key {
            Some(Key::P) => {
                self.start();
                false
            },
            Some(Key::Q) => true,
            _ => false,
        }
    }

    /// One tick of play, given the microseconds since the last tick and the key
    /// pressed in it, if any.
    pub fn play(&mut self, elapsed_us: u32, key: Option<Key>)
        requires
            old(self).wf(),
            old(self).mode == GameMode::Playing,
            old(self).has_room(),
        ensures
            old(self).play_outcome(*final(self), elapsed_us, key),
            final(self).wf(),
    {
        self.frame_time_us = self.frame_time_us + elapsed_us as u64;
        if self.frame_time_us > FRAME_DURATION_US {
            self.frame_time_us = 0;
            self.player.move_and_gravity();
        }
        if let Some(Key::Space) = key {
            self.player.flap();
        }
        if self.player.x > self.obstacle.x {
            self.score = self.score + 1;
            self.obstacle = Obstacle::new(self.player.x + SCREEN_WIDTH, self.score);
        }
        if self.player.y > SCREEN_HEIGHT || self.obstacle.collision(&self.player) {
            self.mode = GameMode::Ended;
        }
    }

    /// One tick in whatever phase the game is in; returns whether to quit.
    pub fn tick(&mut self, elapsed_us: u32, key: Option<Key>) -> (quit: bool)
        requires
            old(self).wf(),
            old(self).mode == GameMode::Playing ==> old(self).has_room(),
        ensures
            old(self).mode == GameMode::Playing ==> !quit && old(self).play_outcome(
                *final(self),
                elapsed_us,
                key,
            ),
            old(self).mode != GameMode::Playing ==> old(self).prompt_outcome(*final(self), key, quit),
            final(self).wf(),
    {
        match self.mode {
            GameMode::Menu => self.menu(key),
            GameMode::Playing => {
                self.play(elapsed_us, key);
                false
            },
            GameMode::Ended => self.dead(key),
        }
    }
}

} // verus!
