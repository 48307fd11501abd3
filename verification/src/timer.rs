//! Timers.

use crate::timestamp::Timestamp;
use vstd::prelude::*;

verus! {

/// A timer as the `timers` table records it.
#[derive(Clone, Copy, Debug)]
pub struct Timer {
    id: i32,
    fire_time: Timestamp,
}

/// What a [`Timer`] holds.
pub struct TimerView {
    pub id: i32,
    pub fire_time: Timestamp,
}

impl View for Timer {
    type V = TimerView;

    closed spec fn view(&self) -> TimerView {
        TimerView {
            id: self.id,
            fire_time: self.fire_time,
        }
    }
}

impl Timer {
    /// The record with these values.
    pub fn new(id: i32, fire_time: Timestamp) -> (made: Timer)
        ensures
            made@ == (TimerView {
                id,
                fire_time,
            }),
    {
        Timer { id, fire_time }
    }

    /// The record's id.
    pub fn id(&self) -> (r: i32)
        ensures
            r == self@.id,
    {
        self.id
    }

    /// When the timer fires.
    pub fn fire_time(&self) -> (r: Timestamp)
        ensures
            r == self@.fire_time,
    {
        self.fire_time
    }
}

/// A timer that is about to be recorded.
#[derive(Clone, Copy, Debug)]
pub struct NewTimer {
    fire_time: Timestamp,
}

/// What a [`NewTimer`] holds.
pub struct NewTimerView {
    pub fire_time: Timestamp,
}

impl View for NewTimer {
    type V = NewTimerView;

    closed spec fn view(&self) -> NewTimerView {
        NewTimerView {
            fire_time: self.fire_time,
        }
    }
}

impl NewTimer {
    /// The timer that fires at the given time.
    pub fn new(fire_time: Timestamp) -> (made: NewTimer)
        ensures
            made@ == (NewTimerView {
                fire_time,
            }),
    {
        NewTimer { fire_time }
    }

    /// When the timer fires.
    pub fn fire_time(&self) -> (r: Timestamp)
        ensures
            r == self@.fire_time,
    {
        self.fire_time
    }
}

} // verus!
