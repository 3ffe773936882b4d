//! Progressive scaling: composing repeated 2x inference passes into a net
//! power-of-two scale factor.
//!
//! The engine's `process` call is an external collaborator, so the pass
//! schedule is an explicit state machine: the caller asks for the next pass
//! with [`ScaleSession::next_pass`], performs it against the engine, and
//! reports the outcome back. The session tracks the dimensions of the
//! buffer currently flowing through the pipeline and accounts for every
//! engine-owned buffer, so that none is left outstanding whether the
//! pipeline finishes or is aborted after a failure.

use vstd::prelude::*;
use vstd::arithmetic::power2::pow2;
use vstd::arithmetic::power2::lemma_pow2_unfold;
use vstd::arithmetic::power2::lemma2_to64;

verus! {

/// Net scale factors the pass composition supports: powers of two from 1
/// (denoise only) to 32.
pub open spec fn valid_scale(scale: int) -> bool {
    scale == 1 || scale == 2 || scale == 4 || scale == 8 || scale == 16 || scale == 32
}

/// Number of inference passes issued for a net scale factor: the base-two
/// logarithm of the factor, except that scale 1 still issues one
/// identity-shaped pass to apply denoising without resizing.
pub open spec fn spec_pass_count(scale: int) -> int {
    if scale == 1 {
        1
    } else if scale == 2 {
        1
    } else if scale == 4 {
        2
    } else if scale == 8 {
        3
    } else if scale == 16 {
        4
    } else {
        5
    }
}

pub fn pass_count(scale: u32) -> (n: u32)
    requires
        valid_scale(scale as int),
    ensures
        n == spec_pass_count(scale as int),
{
    if scale == 1 {
        1
    } else if scale == 2 {
        1
    } else if scale == 4 {
        2
    } else if scale == 8 {
        3
    } else if scale == 16 {
        4
    } else {
        5
    }
}

/// Dimension multiplier in effect after `passes` completed passes: each
/// pass doubles both dimensions, except in the identity (scale 1) mode.
pub open spec fn spec_multiplier(scale: int, passes: int) -> int
    decreases passes,
{
    if passes <= 0 {
        1
    } else if scale == 1 {
        1
    } else {
        2 * spec_multiplier(scale, passes - 1)
    }
}

/// For every valid scale factor the multiplier stays between 1 and the net
/// scale while passes remain, and reaches the net scale when the last pass
/// has run.
pub proof fn lemma_multiplier(scale: int, passes: int)
    requires
        valid_scale(scale),
        0 <= passes <= spec_pass_count(scale),
    ensures
        1 <= spec_multiplier(scale, passes),
        spec_multiplier(scale, passes) <= scale,
        passes == spec_pass_count(scale) ==> spec_multiplier(scale, passes) == scale,
{
    reveal_with_fuel(spec_multiplier, 7);
}

/// For every scale factor larger than one, `p` passes multiply the
/// dimensions by exactly `2^p`, and `2^spec_pass_count(scale) == scale`:
/// the pass count is the base-two logarithm of the net scale.
pub proof fn lemma_pass_count_is_log2(scale: int, passes: int)
    requires
        valid_scale(scale),
        scale != 1,
        0 <= passes,
    ensures
        spec_multiplier(scale, passes) == pow2(passes as nat),
        pow2(spec_pass_count(scale) as nat) == scale,
    decreases passes,
{
    lemma2_to64();
    if passes > 0 {
        lemma_pass_count_is_log2(scale, passes - 1);
        lemma_pow2_unfold(passes as nat);
    }
}

/// Where the pipeline stands: still exchanging passes with the engine,
/// finished after copy-out, or abandoned after a failure.
#[derive(Clone, Copy, Debug, PartialEq, Eq, Structural)]
pub enum Phase {
    Running,
    Finished,
    Aborted,
}

/// One inference pass the caller must issue against the engine: the input
/// buffer's dimensions, the dimensions the engine will allocate for the
/// output buffer, and the channel count shared by both.
#[derive(Clone, Copy, Debug, PartialEq, Eq, Structural)]
pub struct PassRequest {
    pub in_w: u32,
    pub in_h: u32,
    pub out_w: u32,
    pub out_h: u32,
    pub channels: u8,
}

/// The progressive-scaling state machine for one upscale call.
///
/// `cur_w`/`cur_h` are the dimensions of the buffer currently feeding the
/// pipeline (the caller's input before the first pass, the latest engine
/// output afterwards). `live_buffers` counts engine-owned buffers not yet
/// released, and `releases` the release calls issued so far.
pub struct ScaleSession {
    pub scale: u32,
    pub in_w: u32,
    pub in_h: u32,
    pub channels: u8,
    pub passes_done: u32,
    pub cur_w: u32,
    pub cur_h: u32,
    pub live_buffers: u32,
    pub releases: u32,
    pub phase: Phase,
}

impl ScaleSession {
    /// Session invariant: dimensions follow the pass multiplier and stay
    /// within the engine's signed 32-bit range, and buffer accounting
    /// matches the phase — one live engine buffer while passes are being
    /// exchanged, none once the session has ended.
    pub open spec fn wf(self) -> bool {
        &&& valid_scale(self.scale as int)
        &&& 1 <= self.channels <= 4
        &&& 1 <= self.in_w
        &&& 1 <= self.in_h
        &&& self.in_w * self.scale <= 0x7fffffff
        &&& self.in_h * self.scale <= 0x7fffffff
        &&& self.passes_done <= spec_pass_count(self.scale as int)
        &&& self.cur_w == self.in_w * spec_multiplier(self.scale as int, self.passes_done as int)
        &&& self.cur_h == self.in_h * spec_multiplier(self.scale as int, self.passes_done as int)
        &&& (self.phase == Phase::Finished ==> self.passes_done == spec_pass_count(
            self.scale as int,
        ))
        &&& self.live_buffers == (if self.phase == Phase::Running {
            if self.passes_done == 0 {
                0int
            } else {
                1int
            }
        } else {
            0int
        })
        &&& self.releases == (if self.phase == Phase::Running {
            if self.passes_done == 0 {
                0int
            } else {
                self.passes_done - 1
            }
        } else {
            self.passes_done as int
        })
    }

    /// Output width of the next pass: doubled, or unchanged in identity
    /// mode.
    pub open spec fn spec_next_w(self) -> int {
        if self.scale == 1 {
            self.cur_w as int
        } else {
            2 * self.cur_w
        }
    }

    /// Output height of the next pass.
    pub open spec fn spec_next_h(self) -> int {
        if self.scale == 1 {
            self.cur_h as int
        } else {
            2 * self.cur_h
        }
    }

    /// Starts a session for one upscale call. The dimension bounds keep
    /// every intermediate size within the engine's signed 32-bit range.
    pub fn new(scale: u32, in_w: u32, in_h: u32, channels: u8) -> (s: Self)
        requires
            valid_scale(scale as int),
            1 <= channels <= 4,
            1 <= in_w,
            1 <= in_h,
            in_w * scale <= 0x7fffffff,
            in_h * scale <= 0x7fffffff,
        ensures
            s.wf(),
            s.scale == scale,
            s.in_w == in_w,
            s.in_h == in_h,
            s.channels == channels,
            s.passes_done == 0,
            s.cur_w == in_w,
            s.cur_h == in_h,
            s.live_buffers == 0,
            s.releases == 0,
            s.phase == Phase::Running,
    {
        ScaleSession {
            scale,
            in_w,
            in_h,
            channels,
            passes_done: 0,
            cur_w: in_w,
            cur_h: in_h,
            live_buffers: 0,
            releases: 0,
            phase: Phase::Running,
        }
    }

    /// The next inference pass to issue, or `None` when all passes have
    /// run (or the session has ended).
    pub fn next_pass(&self) -> (r: Option<PassRequest>)
        requires
            self.wf(),
        ensures
            (r is Some) <==> (self.phase == Phase::Running && self.passes_done < spec_pass_count(
                self.scale as int,
            )),
            r is Some ==> r.unwrap() == (PassRequest {
                in_w: self.cur_w,
                in_h: self.cur_h,
                out_w: self.spec_next_w() as u32,
                out_h: self.spec_next_h() as u32,
                channels: self.channels,
            }),
    {
        if self.phase == Phase::Running && self.passes_done < pass_count(self.scale) {
            proof {
                self.lemma_step_fits();
            }
            let (out_w, out_h) = if self.scale == 1 {
                (self.cur_w, self.cur_h)
            } else {
                (self.cur_w * 2, self.cur_h * 2)
            };
            Some(
                PassRequest {
                    in_w: self.cur_w,
                    in_h: self.cur_h,
                    out_w,
                    out_h,
                    channels: self.channels,
                },
            )
        } else {
            None
        }
    }

    /// While a pass remains, the doubled dimensions still fit under the
    /// engine's signed 32-bit bound.
    proof fn lemma_step_fits(self)
        requires
            self.wf(),
            self.passes_done < spec_pass_count(self.scale as int),
        ensures
            self.spec_next_w() <= 0x7fffffff,
            self.spec_next_h() <= 0x7fffffff,
            self.spec_next_w() == self.in_w * spec_multiplier(
                self.scale as int,
                self.passes_done + 1,
            ),
            self.spec_next_h() == self.in_h * spec_multiplier(
                self.scale as int,
                self.passes_done + 1,
            ),
    {
        let s = self.scale as int;
        let p = self.passes_done as int;
        let m = spec_multiplier(s, p);
        let m1 = spec_multiplier(s, p + 1);
        lemma_multiplier(s, p);
        lemma_multiplier(s, p + 1);
        if s == 1 {
            assert(m1 == 1);
        } else {
            assert(m1 == 2 * m);
            assert(self.in_w * (2 * m) == 2 * (self.in_w * m)) by (nonlinear_arith);
            assert(self.in_h * (2 * m) == 2 * (self.in_h * m)) by (nonlinear_arith);
        }
        assert(self.in_w * m1 <= self.in_w * s) by (nonlinear_arith)
            requires
                m1 <= s,
                self.in_w >= 0,
        ;
        assert(self.in_h * m1 <= self.in_h * s) by (nonlinear_arith)
            requires
                m1 <= s,
                self.in_h >= 0,
        ;
    }

    /// Records that the engine completed the pass described by
    /// [`Self::next_pass`] and handed back one freshly allocated output
    /// buffer. When the consumed input was itself an engine buffer — every
    /// pass after the first — it is released immediately after being
    /// consumed, and the return value tells the caller to do so. At most
    /// two engine buffers (consumed input, fresh output) are ever live at
    /// once.
    pub fn record_pass(&mut self) -> (released_input: bool)
        requires
            old(self).wf(),
            old(self).phase == Phase::Running,
            old(self).passes_done < spec_pass_count(old(self).scale as int),
        ensures
            final(self).wf(),
            final(self).scale == old(self).scale,
            final(self).in_w == old(self).in_w,
            final(self).in_h == old(self).in_h,
            final(self).channels == old(self).channels,
            final(self).phase == Phase::Running,
            final(self).passes_done == old(self).passes_done + 1,
            final(self).cur_w == old(self).spec_next_w(),
            final(self).cur_h == old(self).spec_next_h(),
            released_input == (old(self).passes_done >= 1),
            final(self).releases == old(self).releases + (if released_input {
                1int
            } else {
                0int
            }),
            final(self).live_buffers == 1,
            old(self).live_buffers + 1 <= 2,
    {
        proof {
            old(self).lemma_step_fits();
        }
        let released_input = self.passes_done >= 1;
        if self.scale != 1 {
            self.cur_w = self.cur_w * 2;
            self.cur_h = self.cur_h * 2;
        }
        self.passes_done = self.passes_done + 1;
        self.live_buffers = 1;
        if released_input {
            self.releases = self.releases + 1;
        }
        released_input
    }

    /// Marks the final buffer copied out and its engine-side memory
    /// released. Afterwards no engine buffer is outstanding and the result
    /// dimensions equal the input dimensions times the net scale.
    pub fn finish(&mut self)
        requires
            old(self).wf(),
            old(self).phase == Phase::Running,
            old(self).passes_done == spec_pass_count(old(self).scale as int),
        ensures
            final(self).wf(),
            final(self).scale == old(self).scale,
            final(self).in_w == old(self).in_w,
            final(self).in_h == old(self).in_h,
            final(self).channels == old(self).channels,
            final(self).passes_done == old(self).passes_done,
            final(self).phase == Phase::Finished,
            final(self).live_buffers == 0,
            final(self).releases == old(self).releases + 1,
            final(self).releases == final(self).passes_done,
            final(self).cur_w == old(self).in_w * old(self).scale,
            final(self).cur_h == old(self).in_h * old(self).scale,
    {
        proof {
            lemma_multiplier(self.scale as int, self.passes_done as int);
        }
        self.phase = Phase::Finished;
        self.live_buffers = 0;
        self.releases = self.releases + 1;
    }

    /// Abandons the pipeline after a failure. Every engine buffer still
    /// live must be released before the upscale call returns; the return
    /// value is how many such releases the caller owes (zero or one).
    pub fn abort(&mut self) -> (n: u32)
        requires
            old(self).wf(),
            old(self).phase == Phase::Running,
        ensures
            final(self).wf(),
            final(self).phase == Phase::Aborted,
            final(self).live_buffers == 0,
            n == old(self).live_buffers,
            final(self).releases == old(self).releases + n,
            final(self).passes_done == old(self).passes_done,
    {
        let n = self.live_buffers;
        self.phase = Phase::Aborted;
        self.live_buffers = 0;
        self.releases = self.releases + n;
        n
    }
}

/// After the last pass the current dimensions equal the input dimensions
/// times the net scale factor: repeated doubling realizes the requested
/// power-of-two scale exactly.
pub proof fn lemma_progressive_dimensions(s: ScaleSession)
    requires
        s.wf(),
        s.passes_done == spec_pass_count(s.scale as int),
    ensures
        s.cur_w == s.in_w * s.scale,
        s.cur_h == s.in_h * s.scale,
{
    lemma_multiplier(s.scale as int, s.passes_done as int);
}

/// Resource accounting: once a session has ended — finished after copy-out
/// or aborted after a failure — no engine buffer is outstanding, and the
/// number of release calls equals the number of buffers the engine ever
/// produced (one per pass).
pub proof fn lemma_no_outstanding_buffers(s: ScaleSession)
    requires
        s.wf(),
        s.phase != Phase::Running,
    ensures
        s.live_buffers == 0,
        s.releases == s.passes_done,
{
}

} // verus!
