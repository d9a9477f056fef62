//! Quota tracking that warns a messenger as usage approaches a maximum.

use vstd::prelude::*;

verus! {

/// Receives the warnings a [`LimitTracker`] emits. Implementors decide what
/// sending means; the tracker promises nothing about their behaviour.
pub trait Messenger {
    fn send(&self, msg: &str);
}

/// Which warning a given value triggers against a maximum: none below three
/// quarters, a warning from three quarters, an urgent warning from nine
/// tenths, and an over-quota error at or above the maximum. A maximum of
/// zero triggers only on a nonzero value.
pub open spec fn warning_level(value: nat, max: nat) -> nat {
    if value == 0 && max == 0 {
        0
    } else if value >= max {
        3
    } else if 10 * value >= 9 * max {
        2
    } else if 4 * value >= 3 * max {
        1
    } else {
        0
    }
}

/// Tracks a value against a maximum and tells its messenger when usage
/// crosses the warning thresholds.
pub struct LimitTracker<'a, T: Messenger> {
    pub messenger: &'a T,
    pub value: usize,
    pub max: usize,
}

impl<'a, T: Messenger> LimitTracker<'a, T> {
    pub fn new(messenger: &'a T, max: usize) -> (tracker: LimitTracker<'a, T>)
        ensures
            tracker.value == 0,
            tracker.max == max,
    {
        LimitTracker { messenger, value: 0, max }
    }

    /// Records the new value and sends the warning its level calls for.
    pub fn set_value(&mut self, value: usize)
        ensures
            final(self).value == value,
            final(self).max == old(self).max,
    {
        self.value = value;
        let level = warning_level_of(value, self.max);
        if level == 3 {
            self.messenger.send("Error: You are over your quota!");
        } else if level == 2 {
            self.messenger.send("Urgent warning: You've used up over 90% of your quota!");
        } else if level == 1 {
            self.messenger.send("Warning: You've used up over 75% of your quota!");
        }
    }
}

/// Computes [`warning_level`] on machine integers, free of overflow.
pub fn warning_level_of(value: usize, max: usize) -> (level: u8)
    ensures
        level == warning_level(value as nat, max as nat),
{
    if value == 0 && max == 0 {
        0
    } else if value >= max {
        3
    } else if (value as u128) * 10 >= (max as u128) * 9 {
        2
    } else if (value as u128) * 4 >= (max as u128) * 3 {
        1
    } else {
        0
    }
}

} // verus!
