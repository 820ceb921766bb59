//! The palette matcher: does a pixel match any colour of a template under
//! the template's comparison mode?

use vstd::prelude::*;
use crate::color::{RGB2, dist_sq};

verus! {

/// A colour template: a non-empty palette, a mode flag and a threshold.
///
/// When `use_diff` is false the template matches exactly: a pixel matches
/// when it equals some palette colour. When `use_diff` is true, or when the
/// operator forces it, a pixel matches when its distance to some palette
/// colour is strictly below `threshold`.
pub struct Matcher {
    pub use_diff: bool,
    pub template: Vec<RGB2>,
    pub threshold: u32,
}

/// A pixel equals some colour of the palette.
pub open spec fn exact_match(template: Seq<RGB2>, pixel: RGB2) -> bool {
    exists|i: int| 0 <= i < template.len() && #[trigger] template[i] == pixel
}

/// The distance from the pixel to some palette colour is strictly below the
/// threshold; equivalently, the squared distance is below the squared
/// threshold. A zero threshold therefore never matches.
pub open spec fn distance_match(template: Seq<RGB2>, threshold: int, pixel: RGB2) -> bool {
    exists|i: int| 0 <= i < template.len() && #[trigger] dist_sq(pixel, template[i]) < threshold
        * threshold
}

impl Matcher {
    /// Every template holds at least one colour.
    pub open spec fn wf(self) -> bool {
        self.template@.len() > 0
    }

    /// Whether `pixel` matches this template. The exact comparison applies
    /// only when the template is exact and the operator has not forced the
    /// distance comparison.
    pub open spec fn spec_matches(self, pixel: RGB2, force_distance: bool) -> bool {
        if !self.use_diff && !force_distance {
            exact_match(self.template@, pixel)
        } else {
            distance_match(self.template@, self.threshold as int, pixel)
        }
    }

    /// Builds a template. An empty palette is rejected.
    pub fn new(use_diff: bool, template: Vec<RGB2>, threshold: u32) -> (r: Option<Matcher>)
        ensures
            r is Some <==> template@.len() > 0,
            r matches Some(m) ==> m == (Matcher { use_diff, template, threshold }) && m.wf(),
    {
        if template.len() == 0 {
            None
        } else {
            Some(Matcher { use_diff, template, threshold })
        }
    }

    /// Whether `pixel` matches this template, with `force_distance`
    /// promoting an exact template to the distance comparison.
    pub fn check(&self, pixel: &RGB2, force_distance: bool) -> (r: bool)
        ensures
            r == self.spec_matches(*pixel, force_distance),
    {
        if !self.use_diff && !force_distance {
            let mut i: usize = 0;
            while i < self.template.len()
                invariant
                    !self.use_diff && !force_distance,
                    0 <= i <= self.template@.len(),
                    forall|k: int| 0 <= k < i ==> self.template@[k] != *pixel,
                decreases self.template@.len() - i,
            {
                let c = self.template[i];
                if c.r == pixel.r && c.g == pixel.g && c.b == pixel.b {
                    assert(self.template@[i as int] == *pixel);
                    return true;
                }
                i = i + 1;
            }
            false
        } else {
            proof {
                assert((self.threshold as int) * (self.threshold as int) <= u64::MAX)
                    by (nonlinear_arith)
                    requires
                        self.threshold <= u32::MAX,
                ;
            }
            let tt: u64 = (self.threshold as u64) * (self.threshold as u64);
            let mut i: usize = 0;
            while i < self.template.len()
                invariant
                    self.use_diff || force_distance,
                    0 <= i <= self.template@.len(),
                    tt == (self.threshold as int) * (self.threshold as int),
                    forall|k: int| 0 <= k < i ==> dist_sq(*pixel, self.template@[k]) >= tt,
                decreases self.template@.len() - i,
            {
                let d = pixel.distance_squared(&self.template[i]);
                if (d as u64) < tt {
                    assert(dist_sq(*pixel, self.template@[i as int]) < (self.threshold as int)
                        * (self.threshold as int));
                    return true;
                }
                i = i + 1;
            }
            false
        }
    }
}

} // verus!
