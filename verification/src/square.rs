//! A square-wave generator.
//!
//! The wave alternates between two fixed sample words, holding each for
//! `half_period` samples, so one full period is `2 * half_period` samples.
//! Like the other generators with continuous internal state, it keeps a
//! phase position and advances it once per output sample; the `offset`
//! argument of the populate calls is ignored, so calls must be contiguous
//! and non-overlapping per instance.

use vstd::arithmetic::div_mod::lemma_add_mod_noop;
use vstd::arithmetic::div_mod::lemma_add_mod_noop_right;
use vstd::arithmetic::div_mod::lemma_mod_bound;
use vstd::arithmetic::div_mod::lemma_mod_twice;
use vstd::arithmetic::div_mod::lemma_small_mod;
use vstd::prelude::*;

use crate::source::Source;
use crate::source::StereoOut;

verus! {

/// A square wave over sample words: `hi` for `half_period` samples, then
/// `lo` for `half_period` samples, repeating.
///
/// A `half_period` of zero, or one so large that a full period does not
/// fit in the phase counter, leaves the wave degenerate: it holds `hi`
/// forever and never advances.
pub struct Square {
    /// The sample word of the wave's upper half.
    pub hi: u32,
    /// The sample word of the wave's lower half.
    pub lo: u32,
    /// How many samples each half of the wave lasts.
    pub half_period: u64,
    /// Phase position within the current period, in samples.
    pub pos: u64,
}

impl Square {
    /// Whether a full period is representable: `half_period` is at least
    /// one and `2 * half_period` still fits the phase counter.
    pub open spec fn has_period(&self) -> bool {
        1 <= self.half_period <= 0x7FFF_FFFF_FFFF_FFFFu64
    }

    /// One full period, in samples.
    pub open spec fn period(&self) -> int {
        2 * self.half_period
    }

    /// Starts a square wave at phase zero: the first `half_period`
    /// samples are `hi`.
    pub fn new(hi: u32, lo: u32, half_period: u64) -> (square: Square)
        ensures
            square == (Square { hi, lo, half_period, pos: 0 }),
    {
        Square { hi, lo, half_period, pos: 0 }
    }
}

impl Source for Square {
    open spec fn sample_at(&self, sample_rate: u32, k: int) -> u32 {
        if self.has_period() {
            if (self.pos + k) % self.period() < self.half_period {
                self.hi
            } else {
                self.lo
            }
        } else {
            self.hi
        }
    }

    open spec fn advanced(&self, sample_rate: u32, n: int) -> Square {
        if self.has_period() && n != 0 {
            Square { pos: (((self.pos + n) % self.period()) as u64), ..*self }
        } else {
            *self
        }
    }

    proof fn lemma_advance_composes(&self, sample_rate: u32, m: int, n: int) {
        if self.has_period() {
            let p = self.period();
            let a = self.pos + m;
            lemma_mod_bound(a, p);
            lemma_mod_twice(a, p);
            lemma_add_mod_noop(a, n, p);
            lemma_add_mod_noop_right(a % p, n, p);
            lemma_mod_bound(a + n, p);
        }
    }

    fn populate_mono(&mut self, _offset: u64, sample_rate: u32, out: &mut Vec<u32>) {
        let ghost start = *self;
        let n = out.len();
        let mut rendered: Vec<u32> = Vec::new();
        if n == 0 {
            // an empty buffer asks for no samples and no state change
        } else if self.half_period == 0 || self.half_period > 0x7FFF_FFFF_FFFF_FFFF {
            while rendered.len() < n
                invariant
                    rendered@.len() <= n,
                    *self == start,
                    !start.has_period(),
                    forall|k: int| 0 <= k < rendered@.len() ==> (#[trigger] rendered@[k])
                        == start.sample_at(sample_rate, k),
                decreases n - rendered@.len(),
            {
                rendered.push(self.hi);
            }
        } else {
            let p = 2 * self.half_period;
            proof {
                lemma_mod_bound(start.pos as int, p as int);
            }
            self.pos = self.pos % p;
            while rendered.len() < n
                invariant
                    rendered@.len() <= n,
                    start.has_period(),
                    p == start.period(),
                    self.hi == start.hi,
                    self.lo == start.lo,
                    self.half_period == start.half_period,
                    self.pos == (start.pos + rendered@.len()) % (p as int),
                    forall|k: int| 0 <= k < rendered@.len() ==> (#[trigger] rendered@[k])
                        == start.sample_at(sample_rate, k),
                decreases n - rendered@.len(),
            {
                let ghost i = rendered@.len() as int;
                let word = if self.pos < self.half_period {
                    self.hi
                } else {
                    self.lo
                };
                rendered.push(word);
                proof {
                    lemma_mod_bound(start.pos + i, p as int);
                    lemma_add_mod_noop(start.pos + i, 1, p as int);
                    lemma_add_mod_noop_right((start.pos + i) % (p as int), 1, p as int);
                    lemma_mod_twice(start.pos + i, p as int);
                    if self.pos + 1 == p {
                        assert((self.pos + 1) % (p as int) == 0) by {
                            lemma_mod_bound(self.pos + 1, p as int);
                            lemma_small_mod(0, p as nat);
                            assert((p as int) % (p as int) == 0) by {
                                lemma_add_mod_noop(0, p as int, p as int);
                                lemma_small_mod(0, p as nat);
                            }
                        }
                    } else {
                        lemma_small_mod((self.pos + 1) as nat, p as nat);
                    }
                }
                self.pos = if self.pos + 1 == p {
                    0
                } else {
                    self.pos + 1
                };
            }
        }
        *out = rendered;
    }

    fn populate_stereo(&mut self, _offset: u64, sample_rate: u32, out: &mut Vec<StereoOut>) {
        let n = out.len();
        let mut mono: Vec<u32> = vec![0u32; n];
        self.populate_mono(_offset, sample_rate, &mut mono);
        let mut rendered: Vec<StereoOut> = Vec::new();
        let mut i: usize = 0;
        while i < n
            invariant
                i <= n,
                mono@.len() == n,
                rendered@.len() == i,
                forall|k: int| 0 <= k < i ==> {
                    &&& (#[trigger] rendered@[k]).left == mono@[k]
                    &&& rendered@[k].right == mono@[k]
                },
            decreases n - i,
        {
            let word = mono[i];
            rendered.push(StereoOut { left: word, right: word });
            i = i + 1;
        }
        *out = rendered;
    }
}

} // verus!
