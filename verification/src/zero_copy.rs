//! Bounded streaming cursors over segmented byte buffers.
//!
//! RPC payloads travel through the native runtime as chains of byte blocks.
//! A read cursor exposes the not-yet-consumed bytes chunk by chunk so that a
//! caller can drain a segmented stream without copying it into one flat
//! allocation first; a write cursor collects bytes into a region of fixed
//! capacity. Advancing consumes bytes and can never move past the cursor's
//! remaining count: an oversized request is rejected as a recoverable error
//! rather than silently truncated.

use vstd::prelude::*;
use vstd::seq_lib::*;
use vstd::slice::slice_subrange;
use crate::error::{BrpcError, BrpcResult};

verus! {

/// The bytes of a chain of segments, in order.
pub open spec fn flat_bytes(segs: Seq<Seq<u8>>) -> Seq<u8> {
    segs.flatten()
}

/// Read cursor over a segmented byte region.
///
/// Its view is the sequence of bytes that remain to be consumed. The first
/// remaining segment is held apart from the rest so that the current chunk
/// can be handed out as a plain slice.
pub struct ZeroCopyBuf {
    /// Segment the cursor currently stands in.
    current: Vec<u8>,
    /// Bytes of `current` that are already consumed.
    off: usize,
    /// Segments after `current`, in order.
    rest: Vec<Vec<u8>>,
    /// Total count of remaining bytes.
    rem: usize,
}

impl View for ZeroCopyBuf {
    type V = Seq<u8>;

    closed spec fn view(&self) -> Seq<u8> {
        self.current@.skip(self.off as int) + flat_bytes(self.rest@.map_values(|v: Vec<u8>| v@))
    }
}

impl ZeroCopyBuf {
    /// Well-formedness: the consumed offset stays inside the current
    /// segment, the remaining count matches the view, and while bytes
    /// remain the current chunk is nonempty.
    pub closed spec fn wf(&self) -> bool {
        &&& self.off <= self.current@.len()
        &&& self.rem == self@.len()
        &&& self.rem > 0 ==> self.off < self.current@.len()
    }

    /// Build a read cursor over the given segments, to be consumed in order.
    pub fn from_segments(input: Vec<Vec<u8>>) -> (z: ZeroCopyBuf)
        requires
            flat_bytes(input@.map_values(|v: Vec<u8>| v@)).len() <= usize::MAX,
        ensures
            z.wf(),
            z@ == flat_bytes(input@.map_values(|v: Vec<u8>| v@)),
    {
        let ghost orig: Seq<Seq<u8>> = input@.map_values(|v: Vec<u8>| v@);
        let mut pending = input;
        let mut segs: Vec<Vec<u8>> = Vec::new();
        let mut total: usize = 0;
        proof {
            assert(segs@.map_values(|v: Vec<u8>| v@) =~= Seq::<Seq<u8>>::empty());
            assert(flat_bytes(Seq::<Seq<u8>>::empty()) =~= Seq::<u8>::empty());
            assert(pending@.map_values(|v: Vec<u8>| v@) =~= orig);
        }
        while pending.len() > 0
            invariant
                flat_bytes(orig).len() <= usize::MAX,
                flat_bytes(segs@.map_values(|v: Vec<u8>| v@))
                    + flat_bytes(pending@.map_values(|v: Vec<u8>| v@)) == flat_bytes(orig),
                total == flat_bytes(segs@.map_values(|v: Vec<u8>| v@)).len(),
                forall|j: int| 0 <= j < segs@.len() ==> #[trigger] segs@[j]@.len() > 0,
            decreases pending.len(),
        {
            let ghost segs_flat = flat_bytes(segs@.map_values(|v: Vec<u8>| v@));
            let ghost pend_views = pending@.map_values(|v: Vec<u8>| v@);
            let s = pending.remove(0);
            proof {
                assert(pend_views.len() > 0);
                assert(pend_views.first() == s@);
                assert(pending@.map_values(|v: Vec<u8>| v@) =~= pend_views.drop_first());
                assert(flat_bytes(pend_views) == s@ + flat_bytes(pend_views.drop_first()));
                assert(flat_bytes(orig).len() == segs_flat.len() + s@.len()
                    + flat_bytes(pend_views.drop_first()).len());
            }
            if s.len() > 0 {
                let ghost old_segs_views = segs@.map_values(|v: Vec<u8>| v@);
                total = total + s.len();
                segs.push(s);
                proof {
                    assert(segs@.map_values(|v: Vec<u8>| v@) =~= old_segs_views.push(s@));
                    old_segs_views.lemma_flatten_push(s@);
                    assert(flat_bytes(segs@.map_values(|v: Vec<u8>| v@)) == segs_flat + s@);
                    assert(flat_bytes(segs@.map_values(|v: Vec<u8>| v@))
                        + flat_bytes(pending@.map_values(|v: Vec<u8>| v@))
                        =~= flat_bytes(orig));
                }
            } else {
                proof {
                    assert(s@ + flat_bytes(pending@.map_values(|v: Vec<u8>| v@))
                        =~= flat_bytes(pending@.map_values(|v: Vec<u8>| v@)));
                }
            }
        }
        proof {
            assert(pending@.map_values(|v: Vec<u8>| v@) =~= Seq::<Seq<u8>>::empty());
            assert(flat_bytes(Seq::<Seq<u8>>::empty()) =~= Seq::<u8>::empty());
            assert(flat_bytes(segs@.map_values(|v: Vec<u8>| v@)) =~= flat_bytes(orig));
        }
        let current: Vec<u8>;
        if segs.len() > 0 {
            let ghost seg_views = segs@.map_values(|v: Vec<u8>| v@);
            current = segs.remove(0);
            proof {
                assert(seg_views.first() == current@);
                assert(segs@.map_values(|v: Vec<u8>| v@) =~= seg_views.drop_first());
                assert(flat_bytes(seg_views)
                    == current@ + flat_bytes(segs@.map_values(|v: Vec<u8>| v@)));
            }
        } else {
            current = Vec::new();
            proof {
                assert(flat_bytes(segs@.map_values(|v: Vec<u8>| v@)) =~= Seq::<u8>::empty());
            }
        }
        let z = ZeroCopyBuf { current, off: 0, rest: segs, rem: total };
        proof {
            assert(z.current@.skip(0) =~= z.current@);
            assert(z@ =~= flat_bytes(orig));
        }
        z
    }

    /// Count of bytes that remain to be consumed.
    pub fn remaining(&self) -> (n: usize)
        requires
            self.wf(),
        ensures
            n == self@.len(),
    {
        self.rem
    }

    /// The current chunk: a view into the first remaining segment, valid
    /// until the next `advance`. `None` exactly when nothing remains;
    /// otherwise a nonempty prefix of the remaining bytes.
    pub fn bytes(&self) -> (r: Option<&[u8]>)
        requires
            self.wf(),
        ensures
            match r {
                Some(chunk) => {
                    &&& chunk@.len() > 0
                    &&& chunk@.len() <= self@.len()
                    &&& chunk@ == self@.take(chunk@.len() as int)
                },
                None => self@.len() == 0,
            },
    {
        if self.rem == 0 {
            None
        } else {
            let chunk = slice_subrange(self.current.as_slice(), self.off, self.current.len());
            proof {
                assert(chunk@ == self.current@.skip(self.off as int));
                assert(chunk@ =~= self@.take(chunk@.len() as int));
            }
            Some(chunk)
        }
    }

    /// Consume `cnt` bytes. Succeeds exactly when `cnt` does not exceed the
    /// remaining count, leaving the view shortened by `cnt` from the front;
    /// an oversized request fails with the binding-layer error and leaves
    /// the cursor untouched.
    pub fn advance(&mut self, cnt: usize) -> (r: BrpcResult<()>)
        requires
            old(self).wf(),
        ensures
            final(self).wf(),
            cnt <= old(self)@.len() ==> (r == Ok::<(), BrpcError>(())
                && final(self)@ == old(self)@.skip(cnt as int)),
            cnt > old(self)@.len() ==> (r == Err::<(), BrpcError>(BrpcError::EFFI)
                && final(self)@ == old(self)@),
    {
        if cnt > self.rem {
            return Err(BrpcError::EFFI);
        }
        let mut left = cnt;
        while left > 0
            invariant
                self.off <= self.current@.len(),
                self.rem == self@.len(),
                left <= cnt,
                left <= self.rem,
                self@ == old(self)@.skip((cnt - left) as int),
                cnt <= old(self)@.len(),
            decreases self.rem, self.rest@.len(),
        {
            let ghost pre = self@;
            let avail = self.current.len() - self.off;
            if left < avail {
                self.off = self.off + left;
                self.rem = self.rem - left;
                proof {
                    assert(self@ =~= pre.skip(left as int));
                    lemma_seq_skip_of_skip(old(self)@, (cnt - left) as int, left as int);
                    assert(self@ =~= old(self)@.skip(cnt as int));
                }
                left = 0;
            } else {
                let ghost left_pre = left as int;
                let consumed = avail;
                left = left - consumed;
                self.rem = self.rem - consumed;
                let ghost rest_views = self.rest@.map_values(|v: Vec<u8>| v@);
                if self.rest.len() > 0 {
                    let next = self.rest.remove(0);
                    proof {
                        assert(rest_views.first() == next@);
                        assert(self.rest@.map_values(|v: Vec<u8>| v@)
                            =~= rest_views.drop_first());
                        assert(flat_bytes(rest_views)
                            == next@ + flat_bytes(self.rest@.map_values(|v: Vec<u8>| v@)));
                    }
                    self.current = next;
                    self.off = 0;
                    proof {
                        assert(self.current@.skip(0) =~= self.current@);
                        assert(self@ =~= pre.skip(consumed as int));
                        lemma_seq_skip_of_skip(old(self)@, cnt - left_pre, consumed as int);
                        assert(self@ =~= old(self)@.skip((cnt - left) as int));
                    }
                } else {
                    self.current = Vec::new();
                    self.off = 0;
                    proof {
                        assert(self.current@.skip(0) =~= Seq::<u8>::empty());
                        assert(self@ =~= pre.skip(consumed as int));
                        lemma_seq_skip_of_skip(old(self)@, cnt - left_pre, consumed as int);
                        assert(self@ =~= old(self)@.skip((cnt - left) as int));
                    }
                }
            }
        }
        self.normalize();
        Ok(())
    }

    /// Step over exhausted segments so that, while bytes remain, the
    /// current chunk is nonempty.
    fn normalize(&mut self)
        requires
            old(self).off <= old(self).current@.len(),
            old(self).rem == old(self)@.len(),
        ensures
            final(self).wf(),
            final(self)@ == old(self)@,
    {
        while self.off == self.current.len() && self.rest.len() > 0
            invariant
                self.off <= self.current@.len(),
                self.rem == self@.len(),
                self@ == old(self)@,
            decreases self.rest@.len(),
        {
            let ghost pre = self@;
            let ghost rest_views = self.rest@.map_values(|v: Vec<u8>| v@);
            let next = self.rest.remove(0);
            proof {
                assert(rest_views.first() == next@);
                assert(self.rest@.map_values(|v: Vec<u8>| v@) =~= rest_views.drop_first());
                assert(flat_bytes(rest_views)
                    == next@ + flat_bytes(self.rest@.map_values(|v: Vec<u8>| v@)));
            }
            self.current = next;
            self.off = 0;
            proof {
                assert(self.current@.skip(0) =~= self.current@);
                assert(self@ =~= pre);
            }
        }
        if self.off == self.current.len() {
            self.current = Vec::new();
            self.off = 0;
            proof {
                assert(self.current@.skip(0) =~= Seq::<u8>::empty());
                assert(self@ =~= old(self)@);
            }
        }
    }
}

/// Write cursor over a byte region of fixed capacity.
///
/// Its view is the sequence of bytes written so far; writes append and can
/// never exceed the capacity fixed at creation.
pub struct ZeroCopyBufMut {
    data: Vec<u8>,
    cap: usize,
}

impl View for ZeroCopyBufMut {
    type V = Seq<u8>;

    closed spec fn view(&self) -> Seq<u8> {
        self.data@
    }
}

impl ZeroCopyBufMut {
    /// Capacity fixed at creation.
    pub closed spec fn spec_capacity(&self) -> nat {
        self.cap as nat
    }

    /// Well-formedness: what was written fits the capacity.
    pub closed spec fn wf(&self) -> bool {
        self.data@.len() <= self.cap
    }

    /// An empty write cursor that accepts up to `capacity` bytes.
    pub fn with_capacity(capacity: usize) -> (z: ZeroCopyBufMut)
        ensures
            z.wf(),
            z@ == Seq::<u8>::empty(),
            z.spec_capacity() == capacity,
    {
        let z = ZeroCopyBufMut { data: Vec::new(), cap: capacity };
        proof {
            assert(z@ =~= Seq::<u8>::empty());
        }
        z
    }

    /// Count of bytes that can still be written.
    pub fn remaining_mut(&self) -> (n: usize)
        requires
            self.wf(),
        ensures
            n == self.spec_capacity() - self@.len(),
    {
        self.cap - self.data.len()
    }

    /// Append the given bytes. Succeeds exactly when they fit in the
    /// remaining capacity; an oversized write fails with the binding-layer
    /// error and leaves the cursor untouched.
    pub fn put_slice(&mut self, src: &[u8]) -> (r: BrpcResult<()>)
        requires
            old(self).wf(),
        ensures
            final(self).wf(),
            final(self).spec_capacity() == old(self).spec_capacity(),
            src@.len() <= old(self).spec_capacity() - old(self)@.len() ==> (r
                == Ok::<(), BrpcError>(()) && final(self)@ == old(self)@ + src@),
            src@.len() > old(self).spec_capacity() - old(self)@.len() ==> (r
                == Err::<(), BrpcError>(BrpcError::EFFI) && final(self)@ == old(self)@),
    {
        if src.len() > self.cap - self.data.len() {
            return Err(BrpcError::EFFI);
        }
        self.data.extend_from_slice(src);
        proof {
            assert forall|i: int| 0 <= i < self.data@.len() implies self.data@[i]
                == (old(self)@ + src@)[i] by {
                if i >= old(self)@.len() {
                    assert(cloned::<u8>(src@[i - old(self)@.len()], self.data@[i]));
                }
            }
            assert(self.data@ =~= old(self)@ + src@);
        }
        Ok(())
    }

    /// Give up the cursor and hand back everything written through it.
    pub fn into_bytes(self) -> (out: Vec<u8>)
        ensures
            out@ == self@,
    {
        self.data
    }
}

/// The remaining bytes after a chain of successful `advance` calls: each
/// step consumes its amount from the front.
pub open spec fn after_advances(s: Seq<u8>, amounts: Seq<nat>) -> Seq<u8>
    decreases amounts.len(),
{
    if amounts.len() == 0 {
        s
    } else if amounts.first() <= s.len() {
        after_advances(s.skip(amounts.first() as int), amounts.drop_first())
    } else {
        s
    }
}

/// Sum of a sequence of advance amounts.
pub open spec fn sum_amounts(amounts: Seq<nat>) -> nat
    decreases amounts.len(),
{
    if amounts.len() == 0 {
        0
    } else {
        amounts.first() + sum_amounts(amounts.drop_first())
    }
}

/// Cursor bounds law: as long as the amounts requested sum to no more than
/// the bytes available, every advance in the chain succeeds and exactly the
/// sum is consumed; in particular, amounts summing to the full length leave
/// nothing remaining.
pub proof fn lemma_advances_drain(s: Seq<u8>, amounts: Seq<nat>)
    requires
        sum_amounts(amounts) <= s.len(),
    ensures
        after_advances(s, amounts).len() == s.len() - sum_amounts(amounts),
    decreases amounts.len(),
{
    if amounts.len() > 0 {
        assert(amounts.first() <= s.len());
        lemma_advances_drain(s.skip(amounts.first() as int), amounts.drop_first());
    }
}

} // verus!
