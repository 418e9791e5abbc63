//! Sliding windows over a stream of samples that arrives in chunks of any
//! size. A window keeps the newest samples up to its capacity and forgets
//! the oldest first; the order of the samples never changes.

use std::collections::VecDeque;
use vstd::prelude::*;

verus! {

/// The newest `n` elements of `s`, or all of `s` where it is shorter.
pub open spec fn newest<T>(s: Seq<T>, n: nat) -> Seq<T> {
    if s.len() <= n {
        s
    } else {
        s.skip(s.len() - n)
    }
}

/// What a window of capacity `n` that held `start` holds after the chunks
/// arrived one after the other, the window being trimmed on every arrival.
pub open spec fn after_chunks<T>(start: Seq<T>, chunks: Seq<Seq<T>>, n: nat) -> Seq<T>
    decreases chunks.len(),
{
    if chunks.len() == 0 {
        start
    } else {
        newest(after_chunks(start, chunks.drop_last(), n) + chunks.last(), n)
    }
}

/// All chunks laid end to end.
pub open spec fn joined<T>(chunks: Seq<Seq<T>>) -> Seq<T>
    decreases chunks.len(),
{
    if chunks.len() == 0 {
        Seq::empty()
    } else {
        joined(chunks.drop_last()) + chunks.last()
    }
}

/// Trimming never leaves more than the capacity, and never reorders: what
/// is kept is a suffix of what was there.
pub proof fn lemma_newest_bounded<T>(s: Seq<T>, n: nat)
    ensures
        newest(s, n).len() <= n,
        newest(s, n).len() == if s.len() <= n { s.len() } else { n },
        forall|i: int|
            0 <= i < newest(s, n).len() ==> newest(s, n)[i] == s[s.len() - newest(s, n).len() + i],
{
}

/// Trimming before more samples arrive changes nothing once the result is
/// trimmed again.
pub proof fn lemma_newest_absorbs<T>(a: Seq<T>, b: Seq<T>, n: nat)
    ensures
        newest(newest(a, n) + b, n) == newest(a + b, n),
{
    let lhs = newest(newest(a, n) + b, n);
    let rhs = newest(a + b, n);
    lemma_newest_bounded(a, n);
    lemma_newest_bounded(newest(a, n) + b, n);
    lemma_newest_bounded(a + b, n);
    assert(lhs =~= rhs);
}

/// A window never exceeds its capacity, whatever the sizes of the chunks
/// that arrive, and it holds exactly the newest samples of the whole stream.
pub proof fn lemma_after_chunks<T>(start: Seq<T>, chunks: Seq<Seq<T>>, n: nat)
    requires
        start.len() <= n,
    ensures
        after_chunks(start, chunks, n).len() <= n,
        after_chunks(start, chunks, n) == newest(start + joined(chunks), n),
    decreases chunks.len(),
{
    if chunks.len() > 0 {
        let init = chunks.drop_last();
        lemma_after_chunks(start, init, n);
        lemma_newest_absorbs(start + joined(init), chunks.last(), n);
        lemma_newest_bounded(after_chunks(start, init, n) + chunks.last(), n);
    }
}

/// A bounded window of the most recent samples.
pub struct SlidingWindow<T> {
    items: VecDeque<T>,
    capacity: usize,
}

impl<T> View for SlidingWindow<T> {
    type V = Seq<T>;

    closed spec fn view(&self) -> Seq<T> {
        self.items@
    }
}

impl<T> SlidingWindow<T> {
    #[verifier::type_invariant]
    spec fn within_capacity(self) -> bool {
        self.items@.len() <= self.capacity
    }

    /// The capacity the window was made with.
    pub closed spec fn limit(&self) -> nat {
        self.capacity as nat
    }
}

impl<T: Copy> SlidingWindow<T> {

    /// An empty window that will hold at most `capacity` samples.
    pub fn new(capacity: usize) -> (w: Self)
        ensures
            w@ == Seq::<T>::empty(),
            w.limit() == capacity,
    {
        SlidingWindow { items: VecDeque::new(), capacity }
    }

    pub fn capacity(&self) -> (c: usize)
        ensures
            c == self.limit(),
    {
        self.capacity
    }

    /// Number of samples held; never more than the capacity.
    pub fn len(&self) -> (n: usize)
        ensures
            n == self@.len(),
            n <= self.limit(),
    {
        proof {
            use_type_invariant(self);
        }
        self.items.len()
    }

    /// Appends a chunk and forgets the oldest samples beyond the capacity.
    pub fn extend(&mut self, chunk: &[T])
        ensures
            final(self)@ == newest(old(self)@ + chunk@, old(self).limit()),
            final(self).limit() == old(self).limit(),
            final(self)@.len() <= final(self).limit(),
    {
        proof {
            use_type_invariant(&*self);
        }
        let capacity = self.capacity;
        let mut items: VecDeque<T> = VecDeque::new();
        std::mem::swap(&mut self.items, &mut items);
        let mut i: usize = 0;
        while i < chunk.len()
            invariant
                i <= chunk.len(),
                items@.len() <= capacity,
                items@ == newest(old(self).items@ + chunk@.take(i as int), capacity as nat),
            decreases chunk.len() - i,
        {
            let ghost before = old(self).items@ + chunk@.take(i as int);
            proof {
                assert(old(self).items@ + chunk@.take(i as int + 1) =~= before.push(
                    chunk@[i as int],
                ));
            }
            if capacity > 0 {
                if items.len() == capacity {
                    let _ = items.pop_front();
                }
                items.push_back(chunk[i]);
            }
            i = i + 1;
        }
        std::mem::swap(&mut self.items, &mut items);
    }

    /// The newest `n` samples in order of arrival, or all of them where
    /// fewer are held.
    pub fn latest(&self, n: usize) -> (out: Vec<T>)
        ensures
            out@ == newest(self@, n as nat),
    {
        let len = self.items.len();
        let start: usize = if n < len { len - n } else { 0 };
        let mut out: Vec<T> = Vec::new();
        let mut i: usize = start;
        while i < len
            invariant
                start <= i <= len,
                len == self.items@.len(),
                out@ == self.items@.subrange(start as int, i as int),
            decreases len - i,
        {
            out.push(self.items[i]);
            i = i + 1;
        }
        out
    }

    /// The oldest `n` samples in order of arrival, or all of them where
    /// fewer are held.
    pub fn oldest(&self, n: usize) -> (out: Vec<T>)
        ensures
            out@ == self@.take(if n as nat <= self@.len() { n as int } else { self@.len() as int }),
    {
        let len = self.items.len();
        let end: usize = if n <= len { n } else { len };
        let mut out: Vec<T> = Vec::new();
        let mut i: usize = 0;
        while i < end
            invariant
                i <= end <= len,
                len == self.items@.len(),
                out@ == self.items@.take(i as int),
            decreases end - i,
        {
            out.push(self.items[i]);
            i = i + 1;
        }
        out
    }

    /// Forgets the oldest `n` samples, or all of them where fewer are held.
    pub fn advance(&mut self, n: usize)
        ensures
            final(self)@ == old(self)@.skip(
                if n as nat <= old(self)@.len() { n as int } else { old(self)@.len() as int },
            ),
            final(self).limit() == old(self).limit(),
    {
        proof {
            use_type_invariant(&*self);
        }
        let mut items: VecDeque<T> = VecDeque::new();
        std::mem::swap(&mut self.items, &mut items);
        let len = items.len();
        let count: usize = if n <= len { n } else { len };
        let mut i: usize = 0;
        while i < count
            invariant
                i <= count <= old(self).items@.len(),
                items@ == old(self).items@.skip(i as int),
            decreases count - i,
        {
            let _ = items.pop_front();
            i = i + 1;
        }
        std::mem::swap(&mut self.items, &mut items);
    }
}

} // verus!
