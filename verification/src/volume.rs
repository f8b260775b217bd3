//! The volume controller: a model of the default render audio endpoint's
//! master volume scalar. The endpoint stores a fraction of full volume; the
//! library holds it in micro-units (0 = silent, 1_000_000 = full) so the
//! clamping rule is exact, and the shell converts the platform's fractional
//! scalar to and from that fixed-point form at the boundary.

use vstd::prelude::*;

verus! {

/// Full volume, in micro-units of the endpoint's scalar.
pub const VOLUME_SCALE: i64 = 1_000_000;

/// A requested level clamped into the endpoint's range `[0, VOLUME_SCALE]`.
/// Out-of-range requests are pinned to the nearer bound, never rejected.
pub open spec fn clamped_volume(level: int) -> int {
    if level < 0 {
        0
    } else if level > VOLUME_SCALE as int {
        VOLUME_SCALE as int
    } else {
        level
    }
}

/// The default render endpoint's master volume, in micro-units. Every set
/// clamps, so the stored level never leaves `[0, VOLUME_SCALE]`.
pub struct VolumeEndpoint {
    level: u32,
}

impl View for VolumeEndpoint {
    type V = int;

    closed spec fn view(&self) -> int {
        self.level as int
    }
}

impl VolumeEndpoint {
    /// The stored level is a fraction of full scale.
    pub closed spec fn wf(&self) -> bool {
        self.level <= VOLUME_SCALE as int
    }

    /// An endpoint observed at `level`, clamped into range as every stored
    /// level is.
    pub fn new(level: i64) -> (endpoint: Self)
        ensures
            endpoint@ == clamped_volume(level as int),
            endpoint.wf(),
    {
        VolumeEndpoint { level: Self::clamp_level(level) }
    }

    /// Clamps a requested level into `[0, VOLUME_SCALE]` and stores it.
    pub fn set_volume(&mut self, level: i64)
        ensures
            final(self)@ == clamped_volume(level as int),
            final(self).wf(),
    {
        self.level = Self::clamp_level(level);
    }

    /// Reads the stored level back, in micro-units.
    pub fn get_volume(&self) -> (level: u32)
        requires
            self.wf(),
        ensures
            level == self@,
            0 <= level <= VOLUME_SCALE,
    {
        self.level
    }

    /// The clamping rule itself: any requested level pinned into range.
    fn clamp_level(level: i64) -> (clamped: u32)
        ensures
            clamped == clamped_volume(level as int),
    {
        if level < 0 {
            0
        } else if level > VOLUME_SCALE {
            VOLUME_SCALE as u32
        } else {
            level as u32
        }
    }
}

/// Law: setting any level and reading it back yields the level clamped into
/// `[0, VOLUME_SCALE]`: a level already in range is stored unchanged, one
/// out of range is pinned to the nearer bound.
pub proof fn lemma_volume_round_trip(level: int)
    ensures
        0 <= clamped_volume(level) <= VOLUME_SCALE,
        0 <= level <= VOLUME_SCALE as int ==> clamped_volume(level) == level,
        level < 0 ==> clamped_volume(level) == 0,
        level > VOLUME_SCALE as int ==> clamped_volume(level) == VOLUME_SCALE,
{
}

} // verus!
