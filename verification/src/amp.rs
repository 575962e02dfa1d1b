//! Time-interpolated amplification factor.  The amplification of the pricing
//! curve ramps linearly over a block range from a configured start value to a
//! configured end value and must always stay at least 1.

use vstd::prelude::*;
use crate::wide::lemma_mul_div_le;

verus! {

/// Largest amplification factor a pool may be configured with.
pub const MAX_AMP: u64 = 1_000_000;

/// A linear ramp of the amplification factor over a block range.
#[derive(Clone, Copy, Debug)]
pub struct AmplificationSchedule {
    pub initial_amp: u64,
    pub future_amp: u64,
    pub initial_amp_block: u64,
    pub future_amp_block: u64,
}

impl AmplificationSchedule {
    /// Both endpoints lie in `[1, MAX_AMP]` and the block range is ordered.
    pub open spec fn is_valid(&self) -> bool {
        &&& 1 <= self.initial_amp <= MAX_AMP
        &&& 1 <= self.future_amp <= MAX_AMP
        &&& self.initial_amp_block <= self.future_amp_block
    }

    /// A schedule that holds `amp` constant.
    pub fn constant(amp: u64) -> (r: AmplificationSchedule)
        ensures
            r.initial_amp == amp,
            r.future_amp == amp,
            r.initial_amp_block == 0,
            r.future_amp_block == 0,
    {
        AmplificationSchedule { initial_amp: amp, future_amp: amp, initial_amp_block: 0, future_amp_block: 0 }
    }

    /// The effective amplification at `block`: the initial value up to the
    /// start of the ramp, the future value from its end, and the linear
    /// interpolation (rounded down) in between.
    pub open spec fn spec_amp(&self, block: u64) -> int {
        if block >= self.future_amp_block {
            self.future_amp as int
        } else if block <= self.initial_amp_block {
            self.initial_amp as int
        } else {
            let delta = block - self.initial_amp_block;
            let range = self.future_amp_block - self.initial_amp_block;
            if self.future_amp >= self.initial_amp {
                self.initial_amp + (self.future_amp - self.initial_amp) * delta / range
            } else {
                self.initial_amp - (self.initial_amp - self.future_amp) * delta / range
            }
        }
    }

    /// Computes the effective amplification at `block`.  The result always
    /// stays between the two endpoints, hence in `[1, MAX_AMP]`.
    pub fn amp_factor(&self, block: u64) -> (r: u64)
        requires
            self.is_valid(),
        ensures
            r == self.spec_amp(block),
            1 <= r <= MAX_AMP,
    {
        if block >= self.future_amp_block {
            self.future_amp
        } else if block <= self.initial_amp_block {
            self.initial_amp
        } else {
            let delta = (block - self.initial_amp_block) as u128;
            let range = (self.future_amp_block - self.initial_amp_block) as u128;
            if self.future_amp >= self.initial_amp {
                let amp_range = (self.future_amp - self.initial_amp) as u128;
                proof {
                    lemma_mul_div_le(amp_range as int, delta as int, range as int);
                    assert(amp_range * delta <= 0x10_0000_0000_0000_0000_0000u128) by (nonlinear_arith)
                        requires
                            amp_range <= 1_000_000u128,
                            delta <= 0xffff_ffff_ffff_ffffu128,
                    ;
                }
                let amp_delta = amp_range * delta / range;
                self.initial_amp + (amp_delta as u64)
            } else {
                let amp_range = (self.initial_amp - self.future_amp) as u128;
                proof {
                    lemma_mul_div_le(amp_range as int, delta as int, range as int);
                    assert(amp_range * delta <= 0x10_0000_0000_0000_0000_0000u128) by (nonlinear_arith)
                        requires
                            amp_range <= 1_000_000u128,
                            delta <= 0xffff_ffff_ffff_ffffu128,
                    ;
                }
                let amp_delta = amp_range * delta / range;
                self.initial_amp - (amp_delta as u64)
            }
        }
    }
}

} // verus!
