//! The record that is kept of a player across duels: wins and losses.

use vstd::prelude::*;

verus! {

/// A player's lasting record.
#[derive(Clone, Copy, Debug, PartialEq, Eq, Structural)]
pub struct Player {
    pub win: u64,
    pub loss: u64,
}

impl Player {
    pub fn initialize(&mut self)
        ensures
            *final(self) == (Player { win: 0, loss: 0 }),
    {
        self.win = 0;
        self.loss = 0;
    }

    pub fn win_increment(&mut self)
        requires
            old(self).win < u64::MAX,
        ensures
            *final(self) == (Player { win: (old(self).win + 1) as u64, loss: old(self).loss }),
    {
        self.win += 1;
    }

    pub fn loss_increment(&mut self)
        requires
            old(self).loss < u64::MAX,
        ensures
            *final(self) == (Player { win: old(self).win, loss: (old(self).loss + 1) as u64 }),
    {
        self.loss += 1;
    }
}

} // verus!
