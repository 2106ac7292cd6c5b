//! The master volume setting, in percent.

use vstd::prelude::*;

verus! {

/// Step of one press of the volume buttons, in percent.
pub const VOLUME_STEP: u32 = 10;

/// Full volume, in percent.
pub const FULL_VOLUME: u32 = 100;

#[derive(Clone, Copy, Debug, PartialEq, Eq, Structural)]
pub struct Mixer {
    pub master: u32,
}

impl Mixer {
    pub open spec fn wf(self) -> bool {
        self.master <= FULL_VOLUME
    }

    /// Full volume.
    pub fn new() -> (r: Mixer)
        ensures
            r.wf(),
            r.master == FULL_VOLUME,
    {
        Mixer { master: FULL_VOLUME }
    }

    /// One step quieter, stopping at silence.
    pub fn volume_down(&mut self)
        ensures
            final(self).master == (if old(self).master >= VOLUME_STEP {
                old(self).master - VOLUME_STEP
            } else {
                0
            }),
    {
        self.master = if self.master >= VOLUME_STEP { self.master - VOLUME_STEP } else { 0 };
    }

    /// One step louder, stopping at full volume.
    pub fn volume_up(&mut self)
        requires
            old(self).wf(),
        ensures
            final(self).wf(),
            final(self).master == (if old(self).master + VOLUME_STEP <= FULL_VOLUME {
                old(self).master + VOLUME_STEP
            } else {
                FULL_VOLUME as int
            }),
    {
        self.master = if self.master + VOLUME_STEP <= FULL_VOLUME {
            self.master + VOLUME_STEP
        } else {
            FULL_VOLUME
        };
    }

    /// The volume with a multiplier given in percent, in percent.
    pub fn as_volume_with_multiplier(&self, multiplier: u32) -> (r: u64)
        requires
            self.wf(),
        ensures
            r == self.master as int * multiplier as int / 100,
    {
        assert(self.master as int * multiplier as int <= 100 * u32::MAX) by (nonlinear_arith)
            requires
                self.master <= 100,
                multiplier <= u32::MAX,
        ;
        self.master as u64 * multiplier as u64 / 100
    }
}

impl Default for Mixer {
    fn default() -> (r: Mixer)
        ensures
            r.wf(),
            r.master == FULL_VOLUME,
    {
        Mixer::new()
    }
}

} // verus!
