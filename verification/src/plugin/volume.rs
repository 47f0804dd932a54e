//! Turning the dial adds up volume changes; they are applied in batches.
use vstd::prelude::*;

verus! {

/// The volume changes that have not been applied yet.
#[derive(Debug)]
pub struct VolumeAccumulator {
    total: i16,
}

/// A volume kept within `0..=100`.
pub open spec fn clamp_volume(v: int) -> int {
    if v < 0 {
        0
    } else if v > 100 {
        100
    } else {
        v
    }
}

impl VolumeAccumulator {
    /// The sum of the changes not applied yet.
    pub closed spec fn pending(&self) -> int {
        self.total as int
    }

    /// Nothing pending.
    pub fn new() -> (a: VolumeAccumulator)
        ensures
            a.pending() == 0,
    {
        VolumeAccumulator { total: 0 }
    }

    /// The sum of the changes not applied yet.
    pub fn total(&self) -> (t: i16)
        ensures
            t == self.pending(),
    {
        self.total
    }

    /// Adds a change to those pending.
    pub fn add(&mut self, delta: i16)
        requires
            i16::MIN <= old(self).pending() + delta <= i16::MAX,
        ensures
            final(self).pending() == old(self).pending() + delta,
    {
        self.total = self.total + delta;
    }

    /// Hands out the sum of the pending changes and clears it.
    pub fn take(&mut self) -> (delta: i16)
        ensures
            delta == old(self).pending(),
            final(self).pending() == 0,
    {
        let delta = self.total;
        self.total = 0;
        delta
    }
}

/// The volume to set after a batch of changes: none when the batch is
/// empty, else the current volume (read as a 16-bit integer) moved by the
/// batch and kept within `0..=100`.
pub fn next_volume(current_volume: u32, delta: i16) -> (v: Option<u8>)
    requires
        delta == 0 || i16::MIN <= (current_volume as i16) + delta <= i16::MAX,
    ensures
        delta == 0 ==> v is None,
        delta != 0 ==> v == Some(clamp_volume((current_volume as i16) + delta) as u8),
        delta != 0 && (current_volume as i16) + delta > 100 ==> v == Some(100u8),
        delta != 0 && (current_volume as i16) + delta < 0 ==> v == Some(0u8),
        delta != 0 && 0 <= (current_volume as i16) + delta <= 100 ==> (v matches Some(x)
            && x as int == (current_volume as i16) + delta),
{
    if delta == 0 {
        return None;
    }
    let current = current_volume as i16;
    let moved = current + delta;
    let clamped: i16 = if moved < 0 {
        0
    } else if moved > 100 {
        100
    } else {
        moved
    };
    Some(clamped as u8)
}

/// A batch never sets the volume outside `0..=100`: a sum above 100 sets
/// 100, a sum below 0 sets 0, and a sum within range sets the sum exactly.
pub proof fn lemma_volume_in_range(current: int, delta: int)
    ensures
        0 <= clamp_volume(current + delta) <= 100,
        current + delta > 100 ==> clamp_volume(current + delta) == 100,
        current + delta < 0 ==> clamp_volume(current + delta) == 0,
        0 <= current + delta <= 100 ==> clamp_volume(current + delta) == current + delta,
{
}

} // verus!
