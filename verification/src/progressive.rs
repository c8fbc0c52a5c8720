//! Bookkeeping of progressive rendering: a render of `total_samples` samples per
//! pixel is split into passes of `samples_per_pass` samples each.
use vstd::prelude::*;

verus! {

/// Samples that one compute pass adds per pixel.
pub const SAMPLES_PER_PASS: u32 = 1;

/// `ceil(a / b)`.
pub open spec fn ceil_div(a: int, b: int) -> int {
    (a + b - 1) / b
}

/// Integer division rounding up, for a non-zero divisor.
pub fn div_ceil(a: u32, b: u32) -> (r: u32)
    requires
        b > 0,
    ensures
        r == ceil_div(a as int, b as int),
{
    let q = a / b;
    let m = a % b;
    proof {
        let ai = a as int;
        let bi = b as int;
        vstd::arithmetic::div_mod::lemma_fundamental_div_mod(ai, bi);
        let qi = ai / bi;
        let mi = ai % bi;
        if mi == 0 {
            vstd::arithmetic::div_mod::lemma_fundamental_div_mod_converse(ai + bi - 1, bi, qi, bi - 1);
        } else {
            assert(ai + bi - 1 == (qi + 1) * bi + (mi - 1)) by (nonlinear_arith)
                requires ai == qi * bi + mi;
            vstd::arithmetic::div_mod::lemma_fundamental_div_mod_converse(ai + bi - 1, bi, qi + 1, mi - 1);
            assert(qi * bi + bi <= ai + bi - mi + bi);
            assert(qi < u32::MAX) by (nonlinear_arith)
                requires ai == qi * bi + mi, mi > 0, bi > 0, ai <= u32::MAX, qi >= 0;
        }
    }
    if m == 0 {
        q
    } else {
        q + 1
    }
}

/// Progressive rendering state, passed to the GPU as a uniform.
#[derive(Clone, Copy, Debug, PartialEq, Eq, Structural)]
pub struct ProgressiveRenderHelper {
    /// Number of passes that complete the render.
    pub total_passes: u32,
    /// Index of the pass to run next (0-based).
    pub current_pass: u32,
    /// Samples per pixel of the complete render.
    pub total_samples: u32,
    /// Samples per pixel added by one pass.
    pub samples_per_pass: u32,
}

impl ProgressiveRenderHelper {
    /// Bookkeeping for a render of `total_samples` samples, before its first pass.
    pub fn new(total_samples: u32) -> (r: Self)
        ensures
            r.total_passes == ceil_div(total_samples as int, SAMPLES_PER_PASS as int),
            r.current_pass == 0,
            r.total_samples == total_samples,
            r.samples_per_pass == SAMPLES_PER_PASS,
    {
        ProgressiveRenderHelper {
            total_passes: div_ceil(total_samples, SAMPLES_PER_PASS),
            current_pass: 0,
            total_samples,
            samples_per_pass: SAMPLES_PER_PASS,
        }
    }

    /// Sets a new total sample count and recomputes the number of passes; the
    /// current pass is kept. Returns the updated state.
    pub fn update(&mut self, total_samples: u32) -> (r: Self)
        requires
            old(self).samples_per_pass > 0,
        ensures
            final(self).total_samples == total_samples,
            final(self).total_passes == ceil_div(
                total_samples as int,
                old(self).samples_per_pass as int,
            ),
            final(self).current_pass == old(self).current_pass,
            final(self).samples_per_pass == old(self).samples_per_pass,
            r == *final(self),
    {
        self.total_samples = total_samples;
        self.total_passes = div_ceil(self.total_samples, self.samples_per_pass);
        *self
    }

    /// There is a pass left to run.
    pub fn has_next(&self) -> (r: bool)
        ensures
            r == (self.current_pass < self.total_passes),
    {
        self.current_pass < self.total_passes
    }
}

/// What a progressive frame iterator does when asked for its next frame.
#[derive(Clone, Copy, Debug, PartialEq, Eq, Structural)]
pub enum PassStep {
    /// All passes ran: the request fails with "No more frames available".
    Exhausted,
    /// Run pass `pass` of `total`, clearing the accumulation buffer first when
    /// `clear_accumulation` is set (the iterator's first pass).
    Run { clear_accumulation: bool, pass: u32, total: u32 },
}

/// The pass sequence of one progressive render.
pub struct PassIterator {
    pub helper: ProgressiveRenderHelper,
    /// The accumulation buffer was cleared for this iterator.
    pub initialized: bool,
}

impl PassIterator {
    /// An iterator over the passes of `helper`, restarted at pass 0.
    pub fn new(helper: ProgressiveRenderHelper) -> (r: Self)
        ensures
            r.helper == (ProgressiveRenderHelper { current_pass: 0, ..helper }),
            !r.initialized,
    {
        PassIterator { helper: ProgressiveRenderHelper { current_pass: 0, ..helper }, initialized: false }
    }

    /// Decides the next step; marks the iterator initialized when a pass is to run.
    pub fn next_step(&mut self) -> (r: PassStep)
        ensures
            old(self).helper.current_pass < old(self).helper.total_passes ==> r == (PassStep::Run {
                clear_accumulation: !old(self).initialized,
                pass: old(self).helper.current_pass,
                total: old(self).helper.total_passes,
            }) && final(self).initialized && final(self).helper == old(self).helper,
            old(self).helper.current_pass >= old(self).helper.total_passes ==> r
                == PassStep::Exhausted && *final(self) == *old(self),
    {
        if !self.helper.has_next() {
            return PassStep::Exhausted;
        }
        let clear_accumulation = !self.initialized;
        self.initialized = true;
        PassStep::Run {
            clear_accumulation,
            pass: self.helper.current_pass,
            total: self.helper.total_passes,
        }
    }

    /// Records that the pass handed out by [`PassIterator::next_step`] has been read back.
    pub fn complete_pass(&mut self)
        requires
            old(self).helper.current_pass < old(self).helper.total_passes,
        ensures
            final(self).helper == (ProgressiveRenderHelper {
                current_pass: (old(self).helper.current_pass + 1) as u32,
                ..old(self).helper
            }),
            final(self).initialized == old(self).initialized,
    {
        self.helper.current_pass = self.helper.current_pass + 1;
    }
}

/// Compute workgroups along one image axis (workgroups are 16 pixels wide).
pub fn workgroups(pixels: u32) -> (r: u32)
    ensures
        r == ceil_div(pixels as int, 16),
{
    div_ceil(pixels, 16)
}

/// Passes still to run from `current` to `total`.
pub open spec fn remaining_passes(current: int, total: int) -> nat {
    if current < total {
        (total - current) as nat
    } else {
        0
    }
}

/// An iterator restarted at pass 0 hands out exactly `total_passes` passes, in
/// order: after `k` completed passes (`k < total_passes`) it runs pass `k`, and
/// after `total_passes` it is exhausted.
pub proof fn lemma_pass_count(h: ProgressiveRenderHelper, k: u32)
    requires
        k <= h.total_passes,
    ensures
        (ProgressiveRenderHelper { current_pass: k, ..h }).current_pass
            < (ProgressiveRenderHelper { current_pass: k, ..h }).total_passes <==> k
            < h.total_passes,
        remaining_passes(k as int, h.total_passes as int) + k == h.total_passes,
{
}

/// With one sample per pass, a render takes exactly as many passes as samples.
pub proof fn lemma_one_pass_per_sample(total_samples: u32)
    ensures
        ceil_div(total_samples as int, SAMPLES_PER_PASS as int) == total_samples,
{
}

} // verus!
