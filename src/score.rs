//! The per-session kill count and the best count seen.

use vstd::prelude::*;

verus! {

/// The score after adding `amount` kills.
pub open spec fn increased(s: Score, amount: int) -> Score {
    let current = if s.current_score + amount > u32::MAX {
        u32::MAX as int
    } else {
        s.current_score + amount
    };
    Score {
        current_score: current as u32,
        high_score: if s.high_score >= current {
            s.high_score
        } else {
            current as u32
        },
    }
}

#[derive(Clone, Copy, Debug, PartialEq, Eq, Structural)]
pub struct Score {
    pub current_score: u32,
    pub high_score: u32,
}

impl Score {
    /// Both counts at zero.
    pub fn new() -> (r: Score)
        ensures
            r.current_score == 0,
            r.high_score == 0,
    {
        Score { current_score: 0, high_score: 0 }
    }

    /// Starts a new session's count; the best count is kept.
    pub fn reset(&mut self)
        ensures
            final(self).current_score == 0,
            final(self).high_score == old(self).high_score,
    {
        self.current_score = 0;
    }

    /// Adds `amount` to the current count (stopping at `u32::MAX`) and raises
    /// the best count to it if needed.
    pub fn increase(&mut self, amount: u32)
        ensures
            *final(self) == increased(*old(self), amount as int),
    {
        self.current_score = self.current_score.saturating_add(amount);
        if self.current_score > self.high_score {
            self.high_score = self.current_score;
        }
    }
}

impl Default for Score {
    fn default() -> (r: Score)
        ensures
            r.current_score == 0,
            r.high_score == 0,
    {
        Score::new()
    }
}

} // verus!
