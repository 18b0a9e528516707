//! The playback scheduler: a pausable clock that says when the next automatic
//! generation is due, and the controller that drives a game with it.
//!
//! Time is read from a [`TimeSource`] in whole milliseconds. Pausing keeps the time of
//! the last tick, so that the countdown to the next one resumes where it stopped.
use crate::board::index_of;
use crate::game::Game;
use crate::grid::Grid;
use crate::pointer::PointerGridEvent;
use vstd::prelude::*;

verus! {

#[verifier::external_type_specification]
#[verifier::external_body]
pub struct ExInstant(std::time::Instant);

/// Relies on `std::time::Instant::now`: a reading of the monotonic clock.
#[verifier::external_body]
fn instant_now() -> std::time::Instant {
    std::time::Instant::now()
}

/// Relies on `std::time::Instant::elapsed`: the time that has passed since `origin`.
#[verifier::external_body]
fn elapsed_since(origin: &std::time::Instant) -> std::time::Duration {
    origin.elapsed()
}

/// Relies on `std::time::Duration::as_millis`: the whole milliseconds in `d`.
#[verifier::external_body]
fn whole_millis(d: &std::time::Duration) -> u128 {
    d.as_millis()
}

/// The milliseconds from `since` to `now`; zero when `now` reads earlier than `since`.
pub open spec fn elapsed(since: u64, now: u64) -> int {
    if now >= since {
        now - since
    } else {
        0
    }
}

/// Whether, at `now`, a tick is due: one was marked, and `interval` has passed since.
pub open spec fn due(last_tick: Option<u64>, now: u64, interval: u64) -> bool {
    match last_tick {
        Some(t) => elapsed(t, now) >= interval,
        None => false,
    }
}

/// Something that tells the time, in milliseconds from an origin of its own choosing.
pub trait TimeSource {
    /// The current time.
    fn now(&self) -> u64;
}

/// The machine's monotonic clock, read as milliseconds since the clock was made.
#[derive(Clone, Copy, Debug)]
pub struct SystemClock {
    origin: std::time::Instant,
}

impl SystemClock {
    /// A clock whose origin is the moment of the call.
    pub fn new() -> Self {
        SystemClock { origin: instant_now() }
    }
}

impl TimeSource for SystemClock {
    fn now(&self) -> u64 {
        let millis = whole_millis(&elapsed_since(&self.origin));
        if millis > u64::MAX as u128 {
            u64::MAX
        } else {
            millis as u64
        }
    }
}

#[derive(Clone, Copy, Debug, PartialEq, Eq)]
enum Playback {
    Playing,
    Paused,
}

/// The interval between automatic ticks, in milliseconds, and the time of the last tick.
#[derive(Debug)]
pub struct GameClock<T: TimeSource> {
    interval: u64,
    last_tick: Option<u64>,
    time: T,
}

impl<T: TimeSource> GameClock<T> {
    /// The interval between automatic ticks, in milliseconds.
    pub closed spec fn spec_interval(&self) -> u64 {
        self.interval
    }

    /// The time of the last tick, if one was marked.
    pub closed spec fn spec_last_tick(&self) -> Option<u64> {
        self.last_tick
    }

    /// The clock's time source.
    pub closed spec fn spec_time(&self) -> T {
        self.time
    }

    /// A clock that reads `time`, with ticks `interval` milliseconds apart and none marked yet.
    pub fn new(interval: u64, time: T) -> (r: Self)
        ensures
            r.spec_interval() == interval,
            r.spec_last_tick() is None,
            r.spec_time() == time,
    {
        Self { interval, last_tick: None, time }
    }

    /// Whether a tick is due at the time `now`.
    pub fn should_tick_at(&self, now: u64) -> (r: bool)
        ensures
            r == due(self.spec_last_tick(), now, self.spec_interval()),
    {
        match self.last_tick {
            Some(t) => {
                let passed: u64 = if now >= t {
                    now - t
                } else {
                    0
                };
                passed >= self.interval
            },
            None => false,
        }
    }

    /// Whether a tick is due now. Never before a tick has been marked; always after one
    /// when the interval is zero.
    pub fn should_tick(&self) -> (r: bool)
        ensures
            self.spec_last_tick() is None ==> !r,
            self.spec_last_tick() is Some && self.spec_interval() == 0 ==> r,
    {
        match self.last_tick {
            Some(_) => self.should_tick_at(self.time.now()),
            None => false,
        }
    }

    /// Records a tick at the time `now`.
    pub fn mark_tick_at(&mut self, now: u64)
        ensures
            final(self).spec_last_tick() == Some(now),
            final(self).spec_interval() == old(self).spec_interval(),
            final(self).spec_time() == old(self).spec_time(),
    {
        self.last_tick = Some(now);
    }

    /// Records a tick now.
    pub fn mark_tick(&mut self)
        ensures
            final(self).spec_last_tick() is Some,
            final(self).spec_interval() == old(self).spec_interval(),
            final(self).spec_time() == old(self).spec_time(),
    {
        let now = self.time.now();
        self.mark_tick_at(now);
    }

    /// Sets the interval between ticks, in milliseconds; the last tick is kept.
    pub fn set_interval(&mut self, d: u64)
        ensures
            final(self).spec_interval() == d,
            final(self).spec_last_tick() == old(self).spec_last_tick(),
            final(self).spec_time() == old(self).spec_time(),
    {
        self.interval = d;
    }

    /// The interval between ticks, in milliseconds.
    pub fn interval(&self) -> (r: u64)
        ensures
            r == self.spec_interval(),
    {
        self.interval
    }

    /// The time of the last tick, if one was marked.
    pub fn last_tick(&self) -> (r: Option<u64>)
        ensures
            r == self.spec_last_tick(),
    {
        self.last_tick
    }
}

/// Drives a game: plays and pauses it, advances it when its clock says so, and applies
/// the user's edits.
pub struct GameController<T: TimeSource> {
    pub game: Game,
    playback: Playback,
    clock: GameClock<T>,
}

impl<T: TimeSource> GameController<T> {
    /// The game being driven.
    pub closed spec fn spec_game(&self) -> Game {
        self.game
    }

    /// Whether automatic ticks are on.
    pub closed spec fn playing(&self) -> bool {
        self.playback == Playback::Playing
    }

    /// The interval between automatic ticks, in milliseconds.
    pub closed spec fn spec_interval(&self) -> u64 {
        self.clock.spec_interval()
    }

    /// The time of the last tick, if there was one.
    pub closed spec fn spec_last_tick(&self) -> Option<u64> {
        self.clock.spec_last_tick()
    }

    /// Whether an automatic tick is due at the time `now`.
    pub open spec fn ready(&self, now: u64) -> bool {
        self.playing() && due(self.spec_last_tick(), now, self.spec_interval())
    }

    /// The grid of the game being driven.
    pub open spec fn grid(&self) -> Grid {
        self.spec_game().spec_grid()
    }

    /// A paused controller of `game`, reading `time_source`, with ticks 500 milliseconds
    /// apart and none made yet.
    pub fn new(game: Game, time_source: T) -> (r: Self)
        ensures
            r.spec_game() == game,
            !r.playing(),
            r.spec_interval() == 500,
            r.spec_last_tick() is None,
    {
        Self { game, playback: Playback::Paused, clock: GameClock::new(500, time_source) }
    }

    /// Turns automatic ticks on, and makes one tick at once.
    pub fn play(&mut self)
        requires
            old(self).spec_game().spec_generation() < u32::MAX,
        ensures
            final(self).playing(),
            final(self).grid()@ == old(self).grid().successor(),
            final(self).grid().spec_width() == old(self).grid().spec_width(),
            final(self).grid().spec_height() == old(self).grid().spec_height(),
            final(self).spec_game().spec_generation() == old(self).spec_game().spec_generation()
                + 1,
            final(self).spec_interval() == old(self).spec_interval(),
            final(self).spec_last_tick() is Some,
    {
        self.playback = Playback::Playing;
        self.tick();
    }

    /// Turns automatic ticks off; the game and the time of the last tick are kept.
    pub fn pause(&mut self)
        ensures
            !final(self).playing(),
            final(self).spec_game() == old(self).spec_game(),
            final(self).spec_interval() == old(self).spec_interval(),
            final(self).spec_last_tick() == old(self).spec_last_tick(),
    {
        self.playback = Playback::Paused;
    }

    /// Whether automatic ticks are on.
    pub fn is_playing(&self) -> (r: bool)
        ensures
            r == self.playing(),
    {
        matches!(self.playback, Playback::Playing)
    }

    /// Sets the interval between automatic ticks, in milliseconds.
    pub fn set_interval(&mut self, interval: u64)
        ensures
            final(self).spec_interval() == interval,
            final(self).spec_game() == old(self).spec_game(),
            final(self).playing() == old(self).playing(),
            final(self).spec_last_tick() == old(self).spec_last_tick(),
    {
        self.clock.set_interval(interval);
    }

    /// Whether an automatic tick is due at the time `now`.
    pub fn should_tick_at(&self, now: u64) -> (r: bool)
        ensures
            r == self.ready(now),
    {
        self.is_playing() && self.clock.should_tick_at(now)
    }

    /// Whether an automatic tick is due now: never while paused, and never before the
    /// first tick.
    pub fn should_tick(&self) -> (r: bool)
        ensures
            !self.playing() ==> !r,
            self.spec_last_tick() is None ==> !r,
            self.playing() && self.spec_last_tick() is Some && self.spec_interval() == 0 ==> r,
    {
        self.is_playing() && self.clock.should_tick()
    }

    /// Advances the game by one generation and records the tick at the time `now`.
    pub fn tick_at(&mut self, now: u64)
        requires
            old(self).spec_game().spec_generation() < u32::MAX,
        ensures
            final(self).grid()@ == old(self).grid().successor(),
            final(self).grid().spec_width() == old(self).grid().spec_width(),
            final(self).grid().spec_height() == old(self).grid().spec_height(),
            final(self).spec_game().spec_generation() == old(self).spec_game().spec_generation()
                + 1,
            final(self).playing() == old(self).playing(),
            final(self).spec_interval() == old(self).spec_interval(),
            final(self).spec_last_tick() == Some(now),
    {
        let _changed = self.game.tick();
        self.clock.mark_tick_at(now);
    }

    /// Advances the game by one generation and records the tick now.
    pub fn tick(&mut self)
        requires
            old(self).spec_game().spec_generation() < u32::MAX,
        ensures
            final(self).grid()@ == old(self).grid().successor(),
            final(self).grid().spec_width() == old(self).grid().spec_width(),
            final(self).grid().spec_height() == old(self).grid().spec_height(),
            final(self).spec_game().spec_generation() == old(self).spec_game().spec_generation()
                + 1,
            final(self).playing() == old(self).playing(),
            final(self).spec_interval() == old(self).spec_interval(),
            final(self).spec_last_tick() is Some,
    {
        let _changed = self.game.tick();
        self.clock.mark_tick();
    }

    /// Applies a pointer event: a primary click toggles the cell under the pointer;
    /// every other event leaves everything as it was.
    pub fn handle_pointer_event(&mut self, event: PointerGridEvent)
        ensures
            final(self).spec_game().spec_generation() == old(self).spec_game().spec_generation(),
            final(self).grid().spec_width() == old(self).grid().spec_width(),
            final(self).grid().spec_height() == old(self).grid().spec_height(),
            final(self).playing() == old(self).playing(),
            final(self).spec_interval() == old(self).spec_interval(),
            final(self).spec_last_tick() == old(self).spec_last_tick(),
            final(self).grid()@ == (match event {
                PointerGridEvent::LeftClick { cell } => old(self).toggled(cell),
                _ => old(self).grid()@,
            }),
    {
        match event {
            PointerGridEvent::Hovered { cell: _ } => {},
            PointerGridEvent::LeftClick { cell } => self.toggle_cell(cell),
            PointerGridEvent::RightClick { cell: _ } => {},
            PointerGridEvent::BothClick { cell: _ } => {},
        };
    }

    /// The cells after flipping the one at `coord`, or unchanged when `coord` is off the grid.
    pub open spec fn toggled(&self, coord: (usize, usize)) -> Seq<bool> {
        if self.grid().holds_coord(coord.0 as int, coord.1 as int) {
            self.grid()@.update(
                index_of(self.grid().spec_width() as int, coord.0 as int, coord.1 as int),
                !self.grid().cell(coord.0 as int, coord.1 as int),
            )
        } else {
            self.grid()@
        }
    }

    /// Flips the cell at `coord`, a column and a row, and no other. A coordinate off the
    /// grid, which a stale pointer position may give, changes nothing.
    pub fn toggle_cell(&mut self, coord: (usize, usize))
        ensures
            final(self).grid()@ == old(self).toggled(coord),
            final(self).spec_game().spec_generation() == old(self).spec_game().spec_generation(),
            final(self).grid().spec_width() == old(self).grid().spec_width(),
            final(self).grid().spec_height() == old(self).grid().spec_height(),
            final(self).playing() == old(self).playing(),
            final(self).spec_interval() == old(self).spec_interval(),
            final(self).spec_last_tick() == old(self).spec_last_tick(),
    {
        let _ = self.game.toggle_cell_at_coord(coord);
    }
}

/// When automatic ticks are due: never before the first tick, whatever the time; not
/// while less than the interval has passed since the last tick, in particular not at the
/// very moment of a tick when the interval is positive; and, while playing, always once
/// the interval has passed.
pub proof fn lemma_tick_readiness<T: TimeSource>(c: GameController<T>, now: u64)
    ensures
        c.spec_last_tick() is None ==> !c.ready(now),
        (c.spec_last_tick() matches Some(t) && t <= now && now - t < c.spec_interval()) ==> !c.ready(
            now,
        ),
        c.spec_last_tick() == Some(now) && c.spec_interval() > 0 ==> !c.ready(now),
        c.playing() ==> ((c.spec_last_tick() matches Some(t) && t <= now && now - t
            >= c.spec_interval()) ==> c.ready(now)),
{
}

} // verus!
