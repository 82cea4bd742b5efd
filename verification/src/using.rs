//! Holding an item down: eating, drinking and drawing a bow all count down while the button is
//! held, and something happens when they reach the end.
use vstd::prelude::*;

verus! {

/// Which hand something is being used in.
#[derive(Debug, Clone, Copy, PartialEq, Eq, Structural)]
pub enum Hand {
    Main,
    Off,
}

/// An item being held down.
#[derive(Debug, Clone, Copy, PartialEq, Eq, Structural)]
pub struct UsingItem {
    pub hand: Hand,
    /// Which slot it is in, so putting it down stops the use.
    pub slot: usize,
    /// What it is, so swapping to another of the same kind does not go on eating the first.
    pub item: u16,
    /// Ticks still to go.
    pub left: u16,
    /// How long it takes in total, which is what the progress bar is drawn from.
    pub takes: u16,
}

impl UsingItem {
    /// One tick passing. Returns whether it has just finished.
    pub fn tick(&mut self) -> (r: bool)
        ensures
            *final(self) == (UsingItem {
                left: if old(self).left == 0 {
                    0
                } else {
                    (old(self).left - 1) as u16
                },
                ..*old(self)
            }),
            r == (final(self).left == 0),
    {
        if self.left > 0 {
            self.left = self.left - 1;
        }
        self.left == 0
    }
}

} // verus!
