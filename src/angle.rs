use vstd::arithmetic::div_mod::{lemma_add_mod_noop, lemma_mod_bound, lemma_sub_mod_noop};
use crate::position::fits_i64;
use vstd::prelude::*;

verus! {

/// A facing direction in degrees. The stored value accumulates turns and may
/// lie anywhere; it is read through `get`, which maps it into `[0, 360)`.
#[derive(Clone, Copy, Debug)]
pub struct Angle(pub i64);

impl View for Angle {
    type V = int;

    /// The normalized direction in degrees.
    open spec fn view(&self) -> int {
        self.0 as int % 360
    }
}

/// The representative in `[0, 360)` of a machine integer, computed without overflow.
fn reduce(v: i64) -> (r: i64)
    ensures
        r as int == v as int % 360,
        0 <= r < 360,
{
    match v.checked_rem_euclid(360) {
        Some(r) => r,
        None => {
            proof {
                lemma_mod_bound(v as int, 360);
            }
            0
        },
    }
}

impl Angle {
    /// The normalized direction: always in `[0, 360)`, however many turns
    /// have been accumulated in either sense.
    pub fn get(&self) -> (r: i64)
        ensures
            r as int == self@,
            0 <= r < 360,
    {
        reduce(self.0)
    }

    /// Turns this angle by `delta` degrees. The stored value is not
    /// renormalized; only `get` normalizes.
    pub fn add_assign(&mut self, delta: Angle)
        requires
            fits_i64(old(self).0 + delta.0),
        ensures
            final(self).0 == old(self).0 + delta.0,
            final(self)@ == (old(self)@ + delta@) % 360,
    {
        proof {
            lemma_add_mod_noop(self.0 as int, delta.0 as int, 360);
        }
        self.0 = self.0 + delta.0;
    }

    /// Turns this angle back by `delta` degrees. The stored value is not
    /// renormalized; only `get` normalizes.
    pub fn sub_assign(&mut self, delta: Angle)
        requires
            fits_i64(old(self).0 - delta.0),
        ensures
            final(self).0 == old(self).0 - delta.0,
            final(self)@ == (old(self)@ - delta@) % 360,
    {
        proof {
            lemma_sub_mod_noop(self.0 as int, delta.0 as int, 360);
        }
        self.0 = self.0 - delta.0;
    }
}

/// The default facing: a quarter turn back from zero, which reads as 270.
pub const DEFAULT_FACING: i64 = -90;

impl Default for Angle {
    fn default() -> (r: Angle)
        ensures
            r.0 == DEFAULT_FACING,
            r@ == 270,
    {
        Angle(DEFAULT_FACING)
    }
}

} // verus!
