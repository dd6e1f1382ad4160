//! The game clock and the level table. The clock turns a monotonic wall time
//! into the round's elapsed playing time, with pauses subtracted; a level
//! fixes the tick delay. Time is carried in abstract units (the surrounding
//! program feeds in milliseconds).

use vstd::prelude::*;

verus! {

/// The six preset levels; anything else is rejected at the parse, so an
/// out-of-range level is unrepresentable.
#[derive(Clone, Copy, Debug, PartialEq, Eq, Structural)]
pub enum Level {
    One,
    Two,
    Three,
    Four,
    Five,
    Six,
}

/// Tick delay of each level.
pub open spec fn spec_velocity(level: Level) -> int {
    match level {
        Level::One => 600,
        Level::Two => 400,
        Level::Three => 200,
        Level::Four => 150,
        Level::Five => 100,
        Level::Six => 60,
    }
}

/// The level a digit names.
pub open spec fn spec_level_of_digit(d: u8) -> Option<Level> {
    match d {
        1u8 => Some(Level::One),
        2u8 => Some(Level::Two),
        3u8 => Some(Level::Three),
        4u8 => Some(Level::Four),
        5u8 => Some(Level::Five),
        6u8 => Some(Level::Six),
        _ => None,
    }
}

impl Level {
    /// Checked parse from an entered digit; only 1 through 6 name a level.
    pub fn from_digit(d: u8) -> (r: Option<Level>)
        ensures
            r == spec_level_of_digit(d),
            r is Some <==> 1 <= d <= 6,
    {
        match d {
            1u8 => Some(Level::One),
            2u8 => Some(Level::Two),
            3u8 => Some(Level::Three),
            4u8 => Some(Level::Four),
            5u8 => Some(Level::Five),
            6u8 => Some(Level::Six),
            _ => None,
        }
    }

    /// Tick delay of this level, in time units.
    pub fn velocity(&self) -> (v: u64)
        ensures
            v as int == spec_velocity(*self),
    {
        match self {
            Level::One => 600,
            Level::Two => 400,
            Level::Three => 200,
            Level::Four => 150,
            Level::Five => 100,
            Level::Six => 60,
        }
    }

    /// The digit naming this level.
    pub fn number(&self) -> (n: u8)
        ensures
            spec_level_of_digit(n) == Some(*self),
    {
        match self {
            Level::One => 1,
            Level::Two => 2,
            Level::Three => 3,
            Level::Four => 4,
            Level::Five => 5,
            Level::Six => 6,
        }
    }
}

/// Elapsed/paused time bookkeeping for one round.
pub struct GameClock {
    /// Wall time at which the round started.
    pub started_at: u64,
    /// Wall time at which the running pause began, while paused.
    pub pause_started_at: Option<u64>,
    /// Total wall time spent paused so far, completed pauses only.
    pub total_paused: u64,
}

impl GameClock {
    /// Soundness: a running pause began no earlier than the time already
    /// accounted for, so closing it can never overflow the pause total.
    pub open spec fn wf(self) -> bool {
        match self.pause_started_at {
            Some(p) => p >= self.started_at + self.total_paused,
            None => true,
        }
    }

    /// Elapsed playing time at wall time `now`.
    pub open spec fn spec_elapsed(self, now: u64) -> int {
        now - self.started_at - self.total_paused
    }

    /// Whether `now` is consistent with the clock's past: the wall time is
    /// monotonic, so it can never fall behind what the clock has accounted.
    pub open spec fn now_valid(self, now: u64) -> bool {
        now >= self.started_at + self.total_paused
    }

    /// A clock started at wall time `now`.
    pub fn new(now: u64) -> (c: GameClock)
        ensures
            c.wf(),
            c.started_at == now,
            c.pause_started_at is None,
            c.total_paused == 0,
    {
        GameClock { started_at: now, pause_started_at: None, total_paused: 0 }
    }

    /// Elapsed playing time at wall time `now`.
    pub fn elapsed(&self, now: u64) -> (e: u64)
        requires
            self.now_valid(now),
        ensures
            e as int == self.spec_elapsed(now),
    {
        now - self.started_at - self.total_paused
    }

    /// Enters a pause at wall time `now`.
    pub fn pause_begin(&mut self, now: u64)
        requires
            old(self).wf(),
            old(self).pause_started_at is None,
            old(self).now_valid(now),
        ensures
            final(self).wf(),
            *final(self) == (GameClock { pause_started_at: Some(now), ..*old(self) }),
    {
        self.pause_started_at = Some(now);
    }

    /// Leaves the running pause at wall time `now`; the pause's span joins
    /// the total, so elapsed playing time stands where the pause found it.
    pub fn pause_end(&mut self, now: u64)
        requires
            old(self).wf(),
            old(self).pause_started_at is Some,
            now >= old(self).pause_started_at->0,
        ensures
            final(self).wf(),
            final(self).started_at == old(self).started_at,
            final(self).pause_started_at is None,
            final(self).total_paused == old(self).total_paused + now
                - old(self).pause_started_at->0,
            final(self).spec_elapsed(now) == old(self).spec_elapsed(
                old(self).pause_started_at->0,
            ),
    {
        match self.pause_started_at {
            Some(p) => {
                self.total_paused = self.total_paused + (now - p);
                self.pause_started_at = None;
            },
            None => {},
        }
    }
}

} // verus!
