//! Per-phase completion counts. Each count rises by exactly one when its
//! phase completes and never decreases.

use vstd::prelude::*;

verus! {

#[derive(Debug, Clone)]
pub struct Counter {
    pub working: u8,
    pub short_break: u8,
    pub long_break: u8,
}

impl Counter {
    pub fn new() -> (r: Counter)
        ensures
            r == (Counter { working: 0, short_break: 0, long_break: 0 }),
    {
        Counter { working: 0, short_break: 0, long_break: 0 }
    }

    pub fn increment_working(&mut self)
        requires
            old(self).working < u8::MAX,
        ensures
            *final(self) == (Counter { working: (old(self).working + 1) as u8, ..*old(self) }),
    {
        self.working += 1;
    }

    pub fn increment_short_break(&mut self)
        requires
            old(self).short_break < u8::MAX,
        ensures
            *final(self) == (Counter {
                short_break: (old(self).short_break + 1) as u8,
                ..*old(self)
            }),
    {
        self.short_break += 1;
    }

    pub fn increment_long_break(&mut self)
        requires
            old(self).long_break < u8::MAX,
        ensures
            *final(self) == (Counter {
                long_break: (old(self).long_break + 1) as u8,
                ..*old(self)
            }),
    {
        self.long_break += 1;
    }

    pub fn current_working(&self) -> (r: u8)
        ensures
            r == self.working,
    {
        self.working
    }

    pub fn current_short_break(&self) -> (r: u8)
        ensures
            r == self.short_break,
    {
        self.short_break
    }

    pub fn current_long_break(&self) -> (r: u8)
        ensures
            r == self.long_break,
    {
        self.long_break
    }
}

} // verus!
