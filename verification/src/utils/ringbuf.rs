//! RingBuffer is a fixed-capacity byte ring used to keep the tail of a
//! stream (such as ffmpeg's stderr) without growing without bound.

use vstd::prelude::*;

verus! {

/// The last `cap` elements of `s` (all of `s` when it is shorter).
pub open spec fn keep_tail(s: Seq<u8>, cap: nat) -> Seq<u8> {
    if s.len() <= cap { s } else { s.skip(s.len() - cap) }
}

/// Keeping the tail of a kept tail extended by more bytes is keeping the
/// tail of the whole: the ring only ever needs what it holds.
pub proof fn lemma_keep_tail_append(a: Seq<u8>, p: Seq<u8>, cap: nat)
    ensures
        keep_tail(keep_tail(a, cap) + p, cap) == keep_tail(a + p, cap),
{
    let t = keep_tail(a, cap);
    if a.len() > cap {
        let lhs = keep_tail(t + p, cap);
        let rhs = keep_tail(a + p, cap);
        assert(t.len() == cap);
        assert(lhs.len() == rhs.len());
        assert forall|i: int| 0 <= i < lhs.len() implies lhs[i] == rhs[i] by {
            let k = (t + p).len() - cap;
            let m = (a + p).len() - cap;
            assert(lhs[i] == (t + p)[k + i]);
            assert(rhs[i] == (a + p)[m + i]);
            if k + i < t.len() {
                assert((t + p)[k + i] == t[k + i]);
                assert(t[k + i] == a[a.len() - cap + k + i]);
                assert(m + i == a.len() - cap + k + i);
            } else {
                assert((t + p)[k + i] == p[k + i - t.len()]);
                assert((a + p)[m + i] == p[m + i - a.len()]);
            }
        }
        assert(lhs =~= rhs);
    }
}

/// RingBuffer keeps the last `capacity` bytes written to it.
pub struct RingBuffer {
    buf: Vec<u8>,
    head: usize,
    full: bool,
}

impl RingBuffer {
    /// The ring's internal invariant.
    pub closed spec fn wf(&self) -> bool {
        &&& self.buf@.len() > 0
        &&& self.head < self.buf@.len()
    }

    /// The capacity in bytes.
    pub closed spec fn capacity(&self) -> nat {
        self.buf@.len()
    }

    /// The bytes held, oldest first.
    pub closed spec fn contents(&self) -> Seq<u8> {
        if self.full {
            self.buf@.skip(self.head as int) + self.buf@.take(self.head as int)
        } else {
            self.buf@.take(self.head as int)
        }
    }

    /// An empty ring of the given capacity (4096 when zero is asked for).
    pub fn new(capacity: usize) -> (out: RingBuffer)
        ensures
            out.wf(),
            out.capacity() == (if capacity == 0 { 4096 } else { capacity as nat }),
            out.contents() == Seq::<u8>::empty(),
    {
        let cap: usize = if capacity == 0 { 4096 } else { capacity };
        let mut buf: Vec<u8> = Vec::new();
        let mut i: usize = 0;
        while i < cap
            invariant
                i <= cap,
                buf@.len() == i,
            decreases cap - i,
        {
            buf.push(0u8);
            i = i + 1;
        }
        let r = RingBuffer { buf, head: 0, full: false };
        assert(r.contents() =~= Seq::<u8>::empty());
        r
    }

    /// A copy of the bytes held, oldest first.
    pub fn snapshot(&self) -> (out: Vec<u8>)
        requires
            self.wf(),
        ensures
            out@ == self.contents(),
    {
        let mut out: Vec<u8> = Vec::new();
        if self.full {
            let mut i: usize = self.head;
            while i < self.buf.len()
                invariant
                    self.head <= i <= self.buf@.len(),
                    out@ == self.buf@.subrange(self.head as int, i as int),
                decreases self.buf.len() - i,
            {
                out.push(self.buf[i]);
                assert(self.buf@.subrange(self.head as int, i as int + 1) =~= self.buf@.subrange(self.head as int, i as int).push(self.buf@[i as int]));
                i = i + 1;
            }
        }
        let ghost first = out@;
        let mut j: usize = 0;
        while j < self.head
            invariant
                j <= self.head,
                self.head < self.buf@.len(),
                out@ == first + self.buf@.take(j as int),
            decreases self.head - j,
        {
            out.push(self.buf[j]);
            assert(self.buf@.take(j as int + 1) =~= self.buf@.take(j as int).push(self.buf@[j as int]));
            j = j + 1;
        }
        proof {
            assert(self.buf@.subrange(self.head as int, self.buf@.len() as int) =~= self.buf@.skip(self.head as int));
            if !self.full {
                assert(first =~= Seq::<u8>::empty());
            }
            assert(out@ =~= self.contents());
        }
        out
    }

    proof fn lemma_push_byte(buf: Seq<u8>, head: int, full: bool, b: u8)
        requires
            0 <= head < buf.len(),
            !full ==> head < buf.len(),
        ensures
            ({
                let cap = buf.len();
                let old_c = if full { buf.skip(head) + buf.take(head) } else { buf.take(head) };
                let nb = buf.update(head, b);
                let nh = if head + 1 == cap { 0 } else { head + 1 };
                let nf = full || head + 1 == cap;
                let new_c = if nf { nb.skip(nh) + nb.take(nh) } else { nb.take(nh) };
                new_c == keep_tail(old_c.push(b), cap)
            }),
    {
        let cap = buf.len();
        let old_c = if full { buf.skip(head) + buf.take(head) } else { buf.take(head) };
        let nb = buf.update(head, b);
        let nh = if head + 1 == cap { 0 } else { head + 1 };
        let nf = full || head + 1 == cap;
        let new_c = if nf { nb.skip(nh) + nb.take(nh) } else { nb.take(nh) };
        if !full {
            if head + 1 == cap {
                assert(new_c =~= old_c.push(b));
            } else {
                assert(new_c =~= old_c.push(b));
            }
        } else {
            assert(old_c.len() == cap);
            let t = keep_tail(old_c.push(b), cap);
            assert(t =~= old_c.push(b).skip(1));
            if head + 1 == cap {
                assert(new_c =~= t);
            } else {
                assert(new_c =~= t);
            }
        }
    }

    /// Appends `p`, dropping the oldest bytes beyond the capacity, and
    /// returns the number of bytes taken (all of them).
    pub fn write(&mut self, p: &[u8]) -> (out: usize)
        requires
            old(self).wf(),
        ensures
            final(self).wf(),
            final(self).capacity() == old(self).capacity(),
            final(self).contents() == keep_tail(old(self).contents() + p@, old(self).capacity()),
            out == p@.len(),
    {
        let n = p.len();
        let cap = self.buf.len();
        if n == 0 {
            assert(self.contents() + p@ =~= self.contents());
            return 0;
        }
        if n >= cap {
            let ghost oldc = self.contents();
            let mut i: usize = 0;
            while i < cap
                invariant
                    i <= cap,
                    cap == self.buf@.len(),
                    cap <= n,
                    n == p@.len(),
                    forall|m: int| 0 <= m < i ==> self.buf@[m] == p@[n - cap + m],
                decreases cap - i,
            {
                self.buf.set(i, p[n - cap + i]);
                i = i + 1;
            }
            self.head = 0;
            self.full = true;
            proof {
                let all = oldc + p@;
                assert(oldc.len() <= cap) by {
                    if old(self).full {
                        assert(oldc.len() == cap);
                    }
                }
                assert(self.contents() =~= keep_tail(all, cap as nat));
            }
            return n;
        }
        let ghost c0 = self.contents();
        let mut i: usize = 0;
        while i < n
            invariant
                i <= n,
                n == p@.len(),
                n < cap,
                cap == self.buf@.len(),
                self.wf(),
                self.contents() == keep_tail(c0 + p@.take(i as int), cap as nat),
            decreases n - i,
        {
            let ghost before = self.contents();
            proof {
                Self::lemma_push_byte(self.buf@, self.head as int, self.full, p@[i as int]);
                lemma_keep_tail_append(c0 + p@.take(i as int), seq![p@[i as int]], cap as nat);
                assert(before.push(p@[i as int]) =~= before + seq![p@[i as int]]);
                assert(c0 + p@.take(i as int + 1) =~= (c0 + p@.take(i as int)) + seq![p@[i as int]]);
            }
            let h = self.head;
            self.buf.set(h, p[i]);
            if h + 1 == cap {
                self.head = 0;
                self.full = true;
            } else {
                self.head = h + 1;
            }
            i = i + 1;
        }
        assert(p@.take(n as int) =~= p@);
        n
    }

    /// Nothing is buffered outside the ring, so flushing does nothing.
    pub fn flush(&mut self)
        ensures
            *final(self) == *old(self),
    {
    }
}

/// What the ring holds after a write is what it would hold had it been
/// fed the whole history at once: the last `capacity` bytes written.
pub proof fn lemma_ring_holds_tail_of_history(history: Seq<u8>, held: Seq<u8>, p: Seq<u8>, cap: nat)
    requires
        held == keep_tail(history, cap),
    ensures
        keep_tail(held + p, cap) == keep_tail(history + p, cap),
{
    lemma_keep_tail_append(history, p, cap);
}

/// All the writes, in order, as one byte sequence.
pub open spec fn concat_writes(ws: Seq<Seq<u8>>) -> Seq<u8>
    decreases ws.len(),
{
    if ws.len() == 0 { seq![] } else { concat_writes(ws.drop_last()) + ws.last() }
}

/// What a fresh ring of capacity `cap` holds after the writes `ws`, each
/// taken as `write` states it: the tail of what it held followed by the
/// written bytes.
pub open spec fn ring_after_writes(ws: Seq<Seq<u8>>, cap: nat) -> Seq<u8>
    decreases ws.len(),
{
    if ws.len() == 0 { seq![] } else { keep_tail(ring_after_writes(ws.drop_last(), cap) + ws.last(), cap) }
}

/// After any number of writes a ring holds the last `cap` bytes of all
/// that was written, in write order.
pub proof fn lemma_ring_holds_tail_of_all_writes(ws: Seq<Seq<u8>>, cap: nat)
    ensures
        ring_after_writes(ws, cap) == keep_tail(concat_writes(ws), cap),
    decreases ws.len(),
{
    if ws.len() > 0 {
        let init = ws.drop_last();
        lemma_ring_holds_tail_of_all_writes(init, cap);
        lemma_keep_tail_append(concat_writes(init), ws.last(), cap);
    } else {
        assert(keep_tail(Seq::<u8>::empty(), cap) =~= Seq::<u8>::empty());
    }
}

} // verus!
