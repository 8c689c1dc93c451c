//! The per-process factory's own state: its options, its SSRC counter and
//! whether it was closed. SSRCs are handed out from a counter seeded at
//! random, never zero; a stack with video takes three in a row, the third
//! reserved for the video's retransmission stream.

use vstd::prelude::*;
use crate::models::errors::RustTgCallsError;
use crate::utils::random::random_u32_in;

verus! {

/// Options of the factory: the size of the DTLS certificate pool and
/// whether stacks use the direct transport.
#[derive(Debug, Clone, Copy, PartialEq, Eq, Structural)]
pub struct FactoryOptions {
    pub cert_pool_size: usize,
    pub use_direct_transport: bool,
}

impl Default for FactoryOptions {
    /// A pool of 8 certificates; the direct transport off.
    fn default() -> (out: FactoryOptions)
        ensures
            out.cert_pool_size == 8,
            !out.use_direct_transport,
    {
        FactoryOptions { cert_pool_size: 8, use_direct_transport: false }
    }
}

/// The SSRC counter after handing one out from `c`, and the SSRC: the
/// counter's value, skipping zero; the counter then moves on, wrapping.
pub open spec fn ssrc_step(c: u32) -> (u32, u32) {
    if c == 0 { (2, 1) } else { (((c + 1) % 0x1_0000_0000) as u32, c) }
}

/// The SSRCs of a stack from counter `c`: audio first; with video, the
/// next one for video and the one after reserved. The counter after.
pub open spec fn stack_ssrcs_step(c: u32, with_video: bool) -> (u32, (u32, u32)) {
    let (c1, audio) = ssrc_step(c);
    if with_video {
        let (c2, video) = ssrc_step(c1);
        let (c3, _) = ssrc_step(c2);
        (c3, (audio, video))
    } else {
        (c1, (audio, 0))
    }
}

/// The factory's state.
pub struct FactoryCore {
    pub cert_pool_size: usize,
    pub ssrc_counter: u32,
    pub closed: bool,
}

impl FactoryCore {
    /// A factory whose SSRC counter starts at `seed` with the low bit set;
    /// a pool size of zero means 8.
    pub fn with_seed(opts: FactoryOptions, seed: u32) -> (out: FactoryCore)
        ensures
            out.cert_pool_size == (if opts.cert_pool_size == 0 { 8 } else { opts.cert_pool_size }),
            out.ssrc_counter == seed | 1,
            !out.closed,
    {
        let size = if opts.cert_pool_size == 0 { 8 } else { opts.cert_pool_size };
        FactoryCore { cert_pool_size: size, ssrc_counter: seed | 1, closed: false }
    }

    /// A factory with a random seed.
    pub fn new(opts: FactoryOptions) -> (out: FactoryCore)
        ensures
            out.cert_pool_size == (if opts.cert_pool_size == 0 { 8 } else { opts.cert_pool_size }),
            out.ssrc_counter % 2 == 1,
            !out.closed,
    {
        let seed = random_u32_in(0, u32::MAX);
        let out = Self::with_seed(opts, seed);
        assert((seed | 1) % 2 == 1) by (bit_vector);
        out
    }

    /// Hands out the next SSRC; never zero.
    pub fn allocate_ssrc(&mut self) -> (out: u32)
        ensures
            (final(self).ssrc_counter, out) == ssrc_step(old(self).ssrc_counter),
            final(self).cert_pool_size == old(self).cert_pool_size,
            final(self).closed == old(self).closed,
            out != 0,
    {
        loop
            invariant
                self.cert_pool_size == old(self).cert_pool_size,
                self.closed == old(self).closed,
                self.ssrc_counter == old(self).ssrc_counter
                    || (old(self).ssrc_counter == 0 && self.ssrc_counter == 1),
            decreases (if self.ssrc_counter == 0 { 1int } else { 0int }),
        {
            let v = self.ssrc_counter;
            self.ssrc_counter = if v == u32::MAX { 0 } else { v + 1 };
            if v != 0 {
                return v;
            }
        }
    }

    /// The SSRCs of a new stack: audio, and video (zero without video).
    /// A closed factory refuses.
    pub fn new_stack_ssrcs(&mut self, with_video: bool) -> (out: Result<(u32, u32), RustTgCallsError>)
        ensures
            old(self).closed ==> out == Err::<(u32, u32), RustTgCallsError>(RustTgCallsError::Closed)
                && final(self).ssrc_counter == old(self).ssrc_counter,
            !old(self).closed ==> out == Ok::<(u32, u32), RustTgCallsError>(stack_ssrcs_step(old(self).ssrc_counter, with_video).1)
                && final(self).ssrc_counter == stack_ssrcs_step(old(self).ssrc_counter, with_video).0,
            final(self).cert_pool_size == old(self).cert_pool_size,
            final(self).closed == old(self).closed,
    {
        if self.closed {
            return Err(RustTgCallsError::Closed);
        }
        let audio = self.allocate_ssrc();
        let video = if with_video {
            let v = self.allocate_ssrc();
            let _reserved = self.allocate_ssrc();
            v
        } else {
            0
        };
        Ok((audio, video))
    }

    /// A closed factory refuses to make transports.
    pub fn check_open(&self) -> (out: Result<(), RustTgCallsError>)
        ensures
            self.closed ==> out == Err::<(), RustTgCallsError>(RustTgCallsError::Closed),
            !self.closed ==> out is Ok,
    {
        if self.closed { Err(RustTgCallsError::Closed) } else { Ok(()) }
    }

    /// Closes the factory.
    pub fn close(&mut self)
        ensures
            final(self).closed,
            final(self).ssrc_counter == old(self).ssrc_counter,
            final(self).cert_pool_size == old(self).cert_pool_size,
    {
        self.closed = true;
    }
}

/// The SSRCs of a stack are non-zero and distinct, and with video the
/// reserved one is the video SSRC plus one (the retransmission SSRC the
/// local parameters announce), unless that wraps to zero.
pub proof fn lemma_stack_ssrcs(c: u32, with_video: bool)
    ensures
        ({
            let (_, (audio, video)) = stack_ssrcs_step(c, with_video);
            let reserved = ssrc_step(ssrc_step(ssrc_step(c).0).0).1;
            &&& audio != 0
            &&& with_video ==> video != 0 && video != audio
            &&& !with_video ==> video == 0
            &&& with_video && video != u32::MAX ==> reserved == video + 1
        }),
{
}

/// The SSRCs that `n` consecutive allocations hand out from counter `c`.
pub open spec fn allocated_ssrcs(c: u32, n: nat) -> Seq<u32>
    decreases n,
{
    if n == 0 {
        seq![]
    } else {
        seq![ssrc_step(c).1] + allocated_ssrcs(ssrc_step(c).0, (n - 1) as nat)
    }
}

/// `n` allocations hand out `n` SSRCs.
pub proof fn lemma_allocated_len(c: u32, n: nat)
    ensures
        allocated_ssrcs(c, n).len() == n,
    decreases n,
{
    if n > 0 {
        lemma_allocated_len(ssrc_step(c).0, (n - 1) as nat);
    }
}

/// The first SSRC handed out from counter `c`.
pub open spec fn first_ssrc(c: u32) -> int {
    if c == 0 { 1 } else { c as int }
}

/// The `k`-th allocation from counter `c` walks the non-zero values in a
/// cycle of length 2^32 - 1.
proof fn lemma_allocated_closed_form(c: u32, n: nat, k: int)
    requires
        0 <= k < n,
    ensures
        allocated_ssrcs(c, n)[k] as int == (first_ssrc(c) - 1 + k) % 0xFFFF_FFFF + 1,
    decreases n,
{
    let m: int = 0xFFFF_FFFF;
    let s = allocated_ssrcs(c, n);
    let (c1, out) = ssrc_step(c);
    let rest = allocated_ssrcs(c1, (n - 1) as nat);
    assert(s == seq![out] + rest);
    lemma_allocated_len(c1, (n - 1) as nat);
    if k == 0 {
        assert(s[0] == out);
        assert(0 <= first_ssrc(c) - 1 < m);
        assert((first_ssrc(c) - 1) % m == first_ssrc(c) - 1) by (nonlinear_arith)
            requires 0 <= first_ssrc(c) - 1 < m, m == 0xFFFF_FFFF;
    } else {
        lemma_allocated_closed_form(c1, (n - 1) as nat, k - 1);
        assert(s[k] == rest[k - 1]);
        if c == 0xFFFF_FFFFu32 {
            assert(c1 == 0);
            let x = k - 1;
            assert((m - 1 + k) == m + x);
            assert((m + x) % m == x % m) by (nonlinear_arith)
                requires m == 0xFFFF_FFFF, x >= 0;
        } else {
            assert(first_ssrc(c1) == first_ssrc(c) + 1);
        }
    }
}

/// SSRCs never repeat within a cycle: fewer than 2^32 allocations from
/// any counter hand out non-zero, pairwise distinct SSRCs.
pub proof fn lemma_allocated_ssrcs_distinct(c: u32, n: nat)
    requires
        n <= 0xFFFF_FFFF,
    ensures
        forall|k: int| 0 <= k < n ==> #[trigger] allocated_ssrcs(c, n)[k] != 0,
        forall|j: int, k: int| 0 <= j < k < n ==> #[trigger] allocated_ssrcs(c, n)[j] != #[trigger] allocated_ssrcs(c, n)[k],
{
    let m: int = 0xFFFF_FFFF;
    let s = allocated_ssrcs(c, n);
    let b = first_ssrc(c) - 1;
    assert(0 <= b);
    assert forall|k: int| 0 <= k < n implies #[trigger] s[k] != 0 by {
        lemma_allocated_closed_form(c, n, k);
        assert((b + k) % m >= 0) by (nonlinear_arith) requires m == 0xFFFF_FFFF;
    }
    assert forall|j: int, k: int| 0 <= j < k < n implies #[trigger] s[j] != #[trigger] s[k] by {
        lemma_allocated_closed_form(c, n, j);
        lemma_allocated_closed_form(c, n, k);
        vstd::arithmetic::div_mod::lemma_fundamental_div_mod(b + j, m);
        vstd::arithmetic::div_mod::lemma_fundamental_div_mod(b + k, m);
        let qj = (b + j) / m;
        let qk = (b + k) / m;
        if (b + j) % m == (b + k) % m {
            assert(k - j == m * (qk - qj)) by (nonlinear_arith)
                requires b + j == m * qj + (b + j) % m, b + k == m * qk + (b + k) % m, (b + j) % m == (b + k) % m;
            assert(false) by (nonlinear_arith)
                requires k - j == m * (qk - qj), 0 < k - j < m, m == 0xFFFF_FFFF;
        }
    }
}

} // verus!
