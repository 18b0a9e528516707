//! A simpler driver of a game on the machine's clock. Unlike the controller, pausing
//! it forgets the last tick, so that playback starts afresh.
use crate::game::Game;
use crate::game_loop::{due, SystemClock, TimeSource};
use crate::grid::Grid;
use vstd::prelude::*;

verus! {

/// Plays, pauses and advances a game, timing ticks by the machine's monotonic clock.
pub struct GameManager {
    pub game: Game,
    is_playing: bool,
    interval: u64,
    last_tick_time: Option<u64>,
    clock: SystemClock,
}

impl GameManager {
    /// The game being driven.
    pub closed spec fn spec_game(&self) -> Game {
        self.game
    }

    /// Whether automatic ticks are on.
    pub closed spec fn playing(&self) -> bool {
        self.is_playing
    }

    /// The interval between automatic ticks, in milliseconds.
    pub closed spec fn spec_interval(&self) -> u64 {
        self.interval
    }

    /// The time of the last tick on the manager's clock, if there was one.
    pub closed spec fn spec_last_tick(&self) -> Option<u64> {
        self.last_tick_time
    }

    /// The grid of the game being driven.
    pub open spec fn grid(&self) -> Grid {
        self.spec_game().spec_grid()
    }

    /// A paused manager of `game`, with ticks 500 milliseconds apart and none made yet.
    pub fn new(game: Game) -> (r: Self)
        ensures
            r.spec_game() == game,
            !r.playing(),
            r.spec_interval() == 500,
            r.spec_last_tick() is None,
    {
        GameManager {
            game,
            is_playing: false,
            interval: 500,
            last_tick_time: None,
            clock: SystemClock::new(),
        }
    }

    /// Advances the game by one generation and records the tick now.
    pub fn tick(&mut self)
        requires
            old(self).spec_game().spec_generation() < u32::MAX,
        ensures
            final(self).grid()@ == old(self).grid().successor(),
            final(self).grid().spec_width() == old(self).grid().spec_width(),
            final(self).grid().spec_height() == old(self).grid().spec_height(),
            final(self).spec_game().spec_generation() == old(self).spec_game().spec_generation()
                + 1,
            final(self).playing() == old(self).playing(),
            final(self).spec_interval() == old(self).spec_interval(),
            final(self).spec_last_tick() is Some,
    {
        let _has_changed = self.game.tick();
        self.last_tick_time = Some(self.clock.now());
    }

    /// Whether an automatic tick is due at the time `now` on the manager's clock.
    pub fn should_tick_at(&self, now: u64) -> (r: bool)
        ensures
            r == (self.playing() && due(self.spec_last_tick(), now, self.spec_interval())),
    {
        if !self.is_playing {
            return false;
        }
        if let Some(last_tick) = self.last_tick_time {
            let passed: u64 = if now >= last_tick {
                now - last_tick
            } else {
                0
            };
            passed >= self.interval
        } else {
            false
        }
    }

    /// Whether an automatic tick is due now: never while paused, and never before the
    /// first tick since the last pause.
    pub fn should_tick(&mut self) -> (r: bool)
        ensures
            !old(self).playing() ==> !r,
            old(self).spec_last_tick() is None ==> !r,
            old(self).playing() && old(self).spec_last_tick() is Some && old(self).spec_interval()
                == 0 ==> r,
            *final(self) == *old(self),
    {
        if !self.is_playing || self.last_tick_time.is_none() {
            return false;
        }
        let now = self.clock.now();
        self.should_tick_at(now)
    }

    /// Turns automatic ticks on, and makes one tick at once.
    pub fn play(&mut self)
        requires
            old(self).spec_game().spec_generation() < u32::MAX,
        ensures
            final(self).playing(),
            final(self).grid()@ == old(self).grid().successor(),
            final(self).grid().spec_width() == old(self).grid().spec_width(),
            final(self).grid().spec_height() == old(self).grid().spec_height(),
            final(self).spec_game().spec_generation() == old(self).spec_game().spec_generation()
                + 1,
            final(self).spec_interval() == old(self).spec_interval(),
            final(self).spec_last_tick() is Some,
    {
        self.is_playing = true;
        self.tick();
    }

    /// Whether automatic ticks are on.
    pub fn is_playing(&self) -> (r: bool)
        ensures
            r == self.playing(),
    {
        self.is_playing
    }

    /// Turns automatic ticks off and forgets the last tick; the game is kept.
    pub fn pause(&mut self)
        ensures
            !final(self).playing(),
            final(self).spec_last_tick() is None,
            final(self).spec_game() == old(self).spec_game(),
            final(self).spec_interval() == old(self).spec_interval(),
    {
        self.is_playing = false;
        self.last_tick_time = None;
    }

    /// Sets the interval between automatic ticks, in milliseconds.
    pub fn set_interval(&mut self, interval: u64)
        ensures
            final(self).spec_interval() == interval,
            final(self).spec_game() == old(self).spec_game(),
            final(self).playing() == old(self).playing(),
            final(self).spec_last_tick() == old(self).spec_last_tick(),
    {
        self.interval = interval;
    }

    /// The interval between automatic ticks, in milliseconds.
    pub fn interval(&self) -> (r: u64)
        ensures
            r == self.spec_interval(),
    {
        self.interval
    }

    /// The time of the last tick on the manager's clock, if there was one.
    pub fn last_tick_time(&self) -> (r: Option<u64>)
        ensures
            r == self.spec_last_tick(),
    {
        self.last_tick_time
    }

    /// The clock that times the ticks.
    pub fn clock(&self) -> (r: &SystemClock) {
        &self.clock
    }
}

} // verus!
