//! Axis-aligned bounding boxes in micro-pixels, with the strict overlap
//! test and the contact-side classification the collision rules are built
//! on.

use vstd::prelude::*;

verus! {

/// The largest coordinate magnitude the kernel tracks, in micro-pixels.
/// Entity positions saturate here instead of wrapping; it is more than a
/// million times the arena size, so play never reaches it.
pub const POS_LIMIT: i64 = 0x1000_0000_0000_0000;

/// The largest half-extent a box may have, in micro-pixels (about 4300
/// pixels; the largest sprite is 1000 pixels tall).
pub const EXTENT_LIMIT: i64 = 0x1_0000_0000;

/// An axis-aligned box: a centre and two half-extents, in micro-pixels.
#[derive(Clone, Copy, Debug, PartialEq, Eq, Structural)]
pub struct Aabb {
    pub cx: i64,
    pub cy: i64,
    pub hw: i64,
    pub hh: i64,
}

/// The magnitude of a coordinate difference.
pub open spec fn spec_abs(v: int) -> int {
    if v >= 0 {
        v
    } else {
        -v
    }
}

impl Aabb {
    /// A box is well formed when its centre is within the tracked coordinate
    /// range and its half-extents are non-negative and bounded.
    pub open spec fn wf(self) -> bool {
        &&& -POS_LIMIT <= self.cx <= POS_LIMIT
        &&& -POS_LIMIT <= self.cy <= POS_LIMIT
        &&& 0 <= self.hw <= EXTENT_LIMIT
        &&& 0 <= self.hh <= EXTENT_LIMIT
    }

    /// Strict overlap: the boxes share interior area. Boxes that merely
    /// touch along an edge do not overlap.
    pub open spec fn spec_overlaps(self, other: Aabb) -> bool {
        &&& spec_abs(self.cx - other.cx) < self.hw + other.hw
        &&& spec_abs(self.cy - other.cy) < self.hh + other.hh
    }

    /// How deep two overlapping boxes interpenetrate along x.
    pub open spec fn spec_x_penetration(self, other: Aabb) -> int {
        self.hw + other.hw - spec_abs(self.cx - other.cx)
    }

    /// How deep two overlapping boxes interpenetrate along y.
    pub open spec fn spec_y_penetration(self, other: Aabb) -> int {
        self.hh + other.hh - spec_abs(self.cy - other.cy)
    }

    /// Test whether `self` and `other` overlap.
    pub fn overlaps(&self, other: &Aabb) -> (r: bool)
        requires
            self.wf(),
            other.wf(),
        ensures
            r == self.spec_overlaps(*other),
    {
        let dx: i64 = if self.cx >= other.cx {
            self.cx - other.cx
        } else {
            other.cx - self.cx
        };
        let dy: i64 = if self.cy >= other.cy {
            self.cy - other.cy
        } else {
            other.cy - self.cy
        };
        dx < self.hw + other.hw && dy < self.hh + other.hh
    }
}

/// Whether a contact between the player's box and an enemy's box counts as
/// a bottom-edge hit: the boxes overlap, the shallower penetration axis is
/// vertical, and the enemy's centre lies below the player's — the enemy
/// came at the player from underneath rather than sideways.
pub open spec fn spec_hit_from_below(player: Aabb, enemy: Aabb) -> bool {
    &&& player.spec_overlaps(enemy)
    &&& enemy.cy < player.cy
    &&& player.spec_y_penetration(enemy) <= player.spec_x_penetration(enemy)
}

/// Classify a player/enemy contact as a bottom-edge hit.
pub fn hit_from_below(player: &Aabb, enemy: &Aabb) -> (r: bool)
    requires
        player.wf(),
        enemy.wf(),
    ensures
        r == spec_hit_from_below(*player, *enemy),
{
    if !player.overlaps(enemy) {
        return false;
    }
    if !(enemy.cy < player.cy) {
        return false;
    }
    let dx: i64 = if player.cx >= enemy.cx {
        player.cx - enemy.cx
    } else {
        enemy.cx - player.cx
    };
    let dy: i64 = player.cy - enemy.cy;
    player.hh + enemy.hh - dy <= player.hw + enemy.hw - dx
}

} // verus!
