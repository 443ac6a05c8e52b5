//! Rotation of a clock hand, as an exact fraction of a full turn.

use vstd::prelude::*;
use vstd::arithmetic::div_mod::{
    lemma_fundamental_div_mod, lemma_mod_add_multiples_vanish, lemma_small_mod,
};

verus! {

/// A rotation expressed as an exact fraction of one full clockwise turn from
/// the 12 o'clock position: `num / den` of a turn, with `0 <= num < den`.
/// The angle in radians is `2 * pi * num / den`; that final multiplication is
/// presentation and happens outside the core.
#[derive(Clone, Copy, Debug, PartialEq, Eq, Structural)]
pub struct Rotation {
    pub num: u8,
    pub den: u8,
}

impl Rotation {
    /// A well-formed rotation is a proper fraction of a turn.
    pub open spec fn wf(self) -> bool {
        0 < self.den && self.num < self.den
    }

    /// True exactly when the fraction is one half, i.e. the angle is pi
    /// radians: the opposite side of the face.
    pub open spec fn is_half_turn(self) -> bool {
        2 * self.num == self.den
    }
}

/// The hand position reduced into `[0, total)`: `count` modulo `total`.
pub open spec fn reduced_count(count: int, total: int) -> int {
    count % total
}

/// Rotation of a hand showing `count` out of `total` units on the dial:
/// the fraction `(count % total) / total` of a full clockwise turn from
/// 12 o'clock, e.g. 30 of 60 minutes is half a turn.
pub fn hand_rotation(count: u8, total: u8) -> (r: Rotation)
    requires
        total > 0,
    ensures
        r.num == reduced_count(count as int, total as int),
        r.den == total,
        r.wf(),
{
    Rotation { num: count % total, den: total }
}

/// A count of zero is the zero rotation: the hand points straight up.
pub proof fn lemma_rotation_zero(total: int)
    requires
        total > 0,
    ensures
        reduced_count(0, total) == 0,
{
    lemma_small_mod(0, total as nat);
}

/// Periodicity: a count that wraps past the dial gives the same rotation,
/// so reducing `count + total` and reducing `count` agree.
pub proof fn lemma_rotation_periodic(count: int, total: int)
    requires
        total > 0,
    ensures
        reduced_count(count + total, total) == reduced_count(count, total),
{
    lemma_mod_add_multiples_vanish(count, total);
}

/// Half the dial is half a turn: for an even total, a count of `total / 2`
/// rotates the hand by pi radians, to the opposite side of the face.
pub proof fn lemma_rotation_half_turn(total: u8)
    requires
        total > 0,
        total % 2 == 0,
    ensures
        ({
            let r = Rotation { num: (total / 2) as u8, den: total };
            r.num == reduced_count((total as int) / 2, total as int) && r.is_half_turn()
        }),
{
    lemma_fundamental_div_mod(total as int, 2);
    lemma_small_mod((total / 2) as nat, total as nat);
}

/// Determinism: the rotation is a function of `count` and `total` alone, so
/// any two results meeting the contract of `hand_rotation` are identical.
pub proof fn lemma_hand_rotation_deterministic(r1: Rotation, r2: Rotation, count: u8, total: u8)
    requires
        total > 0,
        r1.num == reduced_count(count as int, total as int),
        r1.den == total,
        r2.num == reduced_count(count as int, total as int),
        r2.den == total,
    ensures
        r1 == r2,
{
}

} // verus!
