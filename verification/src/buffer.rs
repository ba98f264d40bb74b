//! The frame history buffer: a fixed-capacity, insertion-ordered eviction
//! cache of compressed frames. Pushing past capacity evicts the oldest entry;
//! draining removes and returns everything in first-in-first-out order in one
//! step. The deque itself comes from the `bounded_vec_deque` crate and is used
//! through trusted wrappers; the eviction and drain laws are proved on top of
//! their contracts.
use vstd::prelude::*;

use crate::frame::CompressedFrame;
use crate::frame::frames_view;

verus! {

#[verifier::external_type_specification]
#[verifier::external_body]
#[verifier::reject_recursive_types(T)]
pub struct ExBoundedVecDeque<T>(bounded_vec_deque::BoundedVecDeque<T>);

/// What the deque holds, front to back, each element as its bytes paired with
/// its sequence number.
pub uninterp spec fn bvd_elems(q: bounded_vec_deque::BoundedVecDeque<(Vec<u8>, u64)>) -> Seq<
    (Seq<u8>, u64),
>;

/// The length limit the deque was created with.
pub uninterp spec fn bvd_max_len(q: bounded_vec_deque::BoundedVecDeque<(Vec<u8>, u64)>) -> nat;

/// The mathematical image of one stored element.
pub open spec fn pair_view(p: (Vec<u8>, u64)) -> (Seq<u8>, u64) {
    (p.0@, p.1)
}

/// The mathematical image of a vector of stored elements.
pub open spec fn pairs_view(v: Seq<(Vec<u8>, u64)>) -> Seq<(Seq<u8>, u64)> {
    v.map_values(|p: (Vec<u8>, u64)| pair_view(p))
}

/// Relies on BoundedVecDeque::new: an empty deque with the given length limit.
#[verifier::external_body]
fn bvd_new(max_len: usize) -> (r: bounded_vec_deque::BoundedVecDeque<(Vec<u8>, u64)>)
    ensures
        bvd_elems(r) == Seq::<(Seq<u8>, u64)>::empty(),
        bvd_max_len(r) == max_len as nat,
{
    bounded_vec_deque::BoundedVecDeque::new(max_len)
}

/// Relies on BoundedVecDeque::push_back: appends at the back; at the length
/// limit it first removes and returns the front element, and with a zero limit
/// it stores nothing and returns the value itself.
#[verifier::external_body]
fn bvd_push_back(
    q: &mut bounded_vec_deque::BoundedVecDeque<(Vec<u8>, u64)>,
    value: (Vec<u8>, u64),
) -> (r: Option<(Vec<u8>, u64)>)
    ensures
        bvd_max_len(*final(q)) == bvd_max_len(*old(q)),
        bvd_max_len(*old(q)) == 0 ==> {
            &&& bvd_elems(*final(q)) == bvd_elems(*old(q))
            &&& (r matches Some(v) && pair_view(v) == pair_view(value))
        },
        bvd_max_len(*old(q)) > 0 && bvd_elems(*old(q)).len() < bvd_max_len(*old(q)) ==> {
            &&& bvd_elems(*final(q)) == bvd_elems(*old(q)).push(pair_view(value))
            &&& r is None
        },
        bvd_max_len(*old(q)) > 0 && bvd_elems(*old(q)).len() >= bvd_max_len(*old(q)) ==> {
            &&& bvd_elems(*final(q)) == bvd_elems(*old(q)).drop_first().push(pair_view(value))
            &&& (r matches Some(v) && pair_view(v) == bvd_elems(*old(q))[0])
        },
{
    q.push_back(value)
}

/// Relies on BoundedVecDeque::drain over the full range: removes every element
/// and yields them front to back.
#[verifier::external_body]
fn bvd_drain_all(q: &mut bounded_vec_deque::BoundedVecDeque<(Vec<u8>, u64)>) -> (r: Vec<
    (Vec<u8>, u64),
>)
    ensures
        bvd_max_len(*final(q)) == bvd_max_len(*old(q)),
        bvd_elems(*final(q)) == Seq::<(Seq<u8>, u64)>::empty(),
        pairs_view(r@) == bvd_elems(*old(q)),
{
    let n = q.len();
    q.drain(0..n).collect()
}

/// Relies on VecDeque::len, reached through BoundedVecDeque's Deref.
#[verifier::external_body]
fn bvd_len(q: &bounded_vec_deque::BoundedVecDeque<(Vec<u8>, u64)>) -> (r: usize)
    ensures
        r == bvd_elems(*q).len(),
{
    q.len()
}

/// Relies on BoundedVecDeque::max_len: returns the length limit.
#[verifier::external_body]
fn bvd_max_len_exec(q: &bounded_vec_deque::BoundedVecDeque<(Vec<u8>, u64)>) -> (r: usize)
    ensures
        r == bvd_max_len(*q),
{
    q.max_len()
}

/// Relies on VecDeque::get, reached through BoundedVecDeque's Deref: the
/// element at the index, front counted as zero, or None past the end.
#[verifier::external_body]
fn bvd_get(q: &bounded_vec_deque::BoundedVecDeque<(Vec<u8>, u64)>, i: usize) -> (r: Option<
    &(Vec<u8>, u64),
>)
    ensures
        match r {
            Some(p) => i < bvd_elems(*q).len() && pair_view(*p) == bvd_elems(*q)[i as int],
            None => i >= bvd_elems(*q).len(),
        },
{
    q.get(i)
}

/// One push against a buffer of the given capacity: append at the back and, if
/// the buffer is full, evict the oldest (front) entry.
pub open spec fn push_evict(
    v: Seq<(Seq<u8>, u64)>,
    f: (Seq<u8>, u64),
    cap: nat,
) -> Seq<(Seq<u8>, u64)> {
    if cap == 0 {
        v
    } else if v.len() < cap {
        v.push(f)
    } else {
        v.drop_first().push(f)
    }
}

/// The buffer contents after a whole sequence of pushes, oldest push first.
pub open spec fn push_all(
    v: Seq<(Seq<u8>, u64)>,
    fs: Seq<(Seq<u8>, u64)>,
    cap: nat,
) -> Seq<(Seq<u8>, u64)>
    decreases fs.len(),
{
    if fs.len() == 0 {
        v
    } else {
        push_all(push_evict(v, fs[0], cap), fs.drop_first(), cap)
    }
}

/// The last `n` elements of `s`.
pub open spec fn last_n(s: Seq<(Seq<u8>, u64)>, n: nat) -> Seq<(Seq<u8>, u64)>
    recommends
        n <= s.len(),
{
    s.subrange(s.len() - n, s.len() as int)
}

/// The smaller of two naturals.
pub open spec fn min_nat(a: nat, b: nat) -> nat {
    if a <= b {
        a
    } else {
        b
    }
}

/// Law of bounded eviction: however many frames are pushed into a buffer of
/// capacity `cap`, the length never exceeds `cap`, and what remains is exactly
/// the most recent `cap` frames of everything that ever entered — in
/// particular, once at least `cap` frames were pushed, exactly the last `cap`
/// pushed frames, in push order.
pub proof fn lemma_bounded_eviction(v: Seq<(Seq<u8>, u64)>, fs: Seq<(Seq<u8>, u64)>, cap: nat)
    requires
        v.len() <= cap,
    ensures
        push_all(v, fs, cap).len() == min_nat((v.len() + fs.len()) as nat, cap),
        push_all(v, fs, cap) == last_n(v + fs, min_nat((v.len() + fs.len()) as nat, cap)),
        fs.len() >= cap ==> push_all(v, fs, cap) == last_n(fs, cap),
    decreases fs.len(),
{
    let m = min_nat((v.len() + fs.len()) as nat, cap);
    if fs.len() == 0 {
        assert(v + fs =~= v);
        assert(last_n(v + fs, m) =~= v);
        if fs.len() >= cap {
            assert(last_n(fs, cap) =~= v);
        }
    } else {
        let v1 = push_evict(v, fs[0], cap);
        let fs1 = fs.drop_first();
        if cap == 0 {
            lemma_bounded_eviction(v, fs1, 0);
            assert(last_n(v + fs1, 0) =~= last_n(v + fs, 0));
            assert(last_n(fs, 0) =~= last_n(v + fs, 0));
        } else if v.len() < cap {
            lemma_bounded_eviction(v1, fs1, cap);
            assert(v1 + fs1 =~= v + fs);
            if fs.len() >= cap {
                assert(last_n(v + fs, cap) =~= last_n(fs, cap));
            }
        } else {
            lemma_bounded_eviction(v1, fs1, cap);
            assert(v1 + fs1 =~= (v + fs).drop_first());
            assert(last_n((v + fs).drop_first(), cap) =~= last_n(v + fs, cap));
            if fs.len() >= cap {
                assert(last_n(v + fs, cap) =~= last_n(fs, cap));
            }
        }
    }
}

/// Law of drain atomicity: a drain hands back exactly the frames stored before
/// it and leaves the buffer empty, so when the producer resumes and pushes
/// further frames (at most `cap` of them, before the next eviction would
/// start), the drained result and the buffer afterwards together hold the old
/// contents followed by every later push — nothing lost, nothing twice.
pub proof fn lemma_drain_atomic(drained: Seq<(Seq<u8>, u64)>, later: Seq<(Seq<u8>, u64)>, cap: nat)
    requires
        later.len() <= cap,
    ensures
        push_all(Seq::<(Seq<u8>, u64)>::empty(), later, cap) == later,
        drained + push_all(Seq::<(Seq<u8>, u64)>::empty(), later, cap) == drained + later,
{
    let e = Seq::<(Seq<u8>, u64)>::empty();
    lemma_bounded_eviction(e, later, cap);
    assert(e + later =~= later);
    assert(last_n(later, later.len()) =~= later);
}

/// The total number of compressed bytes held in the given frames.
pub open spec fn bytes_total(v: Seq<(Seq<u8>, u64)>) -> nat
    decreases v.len(),
{
    if v.len() == 0 {
        0
    } else {
        bytes_total(v.drop_last()) + v.last().0.len()
    }
}

/// A fixed-capacity first-in-first-out cache of compressed frames. The sole
/// writer pushes at the back, evicting the front once full; the drainer takes
/// everything at once, leaving the buffer empty.
pub struct HistoryBuffer {
    q: bounded_vec_deque::BoundedVecDeque<(Vec<u8>, u64)>,
}

impl HistoryBuffer {
    /// The stored frames, oldest first.
    pub closed spec fn frames(&self) -> Seq<(Seq<u8>, u64)> {
        bvd_elems(self.q)
    }

    /// The fixed capacity the buffer was created with.
    pub closed spec fn capacity(&self) -> nat {
        bvd_max_len(self.q)
    }

    /// The buffer never holds more than its capacity.
    pub open spec fn wf(&self) -> bool {
        self.frames().len() <= self.capacity()
    }

    /// An empty buffer with the given capacity.
    pub fn new(capacity: usize) -> (r: HistoryBuffer)
        ensures
            r.wf(),
            r.capacity() == capacity as nat,
            r.frames() == Seq::<(Seq<u8>, u64)>::empty(),
    {
        HistoryBuffer { q: bvd_new(capacity) }
    }

    /// How many frames are stored.
    pub fn len(&self) -> (r: usize)
        ensures
            r == self.frames().len(),
    {
        bvd_len(&self.q)
    }

    /// The capacity the buffer was created with.
    pub fn max_len(&self) -> (r: usize)
        ensures
            r == self.capacity(),
    {
        bvd_max_len_exec(&self.q)
    }

    /// Insert a frame at the back; once the buffer is full the oldest entry is
    /// silently evicted.
    pub fn push(&mut self, frame: CompressedFrame)
        requires
            old(self).wf(),
        ensures
            final(self).wf(),
            final(self).capacity() == old(self).capacity(),
            final(self).frames() == push_evict(old(self).frames(), frame@, old(self).capacity()),
    {
        let _evicted = bvd_push_back(&mut self.q, (frame.data, frame.seq));
    }

    /// The sum of the stored frames' compressed sizes, for memory reporting,
    /// without removing anything.
    pub fn total_bytes(&self) -> (r: u128)
        ensures
            r == bytes_total(self.frames()),
    {
        let n = bvd_len(&self.q);
        let mut total: u128 = 0;
        let mut i: usize = 0;
        let ghost umax = usize::MAX as int;
        while i < n
            invariant
                i <= n,
                n == self.frames().len(),
                total == bytes_total(self.frames().take(i as int)),
                total <= i * umax,
                umax == usize::MAX as int,
            decreases n - i,
        {
            let p = bvd_get(&self.q, i).unwrap();
            let len = p.0.len();
            proof {
                assert(self.frames().take(i + 1).drop_last() =~= self.frames().take(i as int));
                assert(self.frames().take(i + 1).last() == self.frames()[i as int]);
                assert(total + len <= i * umax + umax);
                assert(i * umax + umax == (i + 1) * umax) by (nonlinear_arith);
                assert((i + 1) * umax <= (umax + 1) * umax) by (nonlinear_arith)
                    requires
                        i + 1 <= umax + 1,
                        umax >= 0,
                ;
                assert((umax + 1) * umax < 0x100000000000000000000000000000000) by (nonlinear_arith)
                    requires
                        0 <= umax <= 0xffffffffffffffff,
                ;
            }
            total = total + (len as u128);
            i = i + 1;
        }
        proof {
            assert(self.frames().take(n as int) =~= self.frames());
        }
        total
    }

    /// Remove and return every stored frame in first-in-first-out order,
    /// leaving the buffer empty. Under the buffer's lock this is one step, so
    /// no concurrent push is lost or duplicated.
    pub fn drain_all(&mut self) -> (r: Vec<CompressedFrame>)
        ensures
            final(self).capacity() == old(self).capacity(),
            final(self).frames() == Seq::<(Seq<u8>, u64)>::empty(),
            final(self).wf(),
            frames_view(r@) == old(self).frames(),
    {
        let pairs = bvd_drain_all(&mut self.q);
        let ghost all = pairs@;
        let mut out: Vec<CompressedFrame> = Vec::new();
        let mut pairs = pairs;
        while pairs.len() > 0
            invariant
                out@.len() + pairs@.len() == all.len(),
                pairs@ =~= all.subrange(out@.len() as int, all.len() as int),
                frames_view(out@) =~= pairs_view(all.subrange(0, out@.len() as int)),
            decreases pairs@.len(),
        {
            let ghost done = out@.len() as int;
            proof {
                assert(pairs@[0] == all[done]);
            }
            let p = pairs.remove(0);
            let f = CompressedFrame { data: p.0, seq: p.1 };
            out.push(f);
            proof {
                assert(frames_view(out@) =~= frames_view(out@.drop_last()).push(f@));
                assert(pairs_view(all.subrange(0, done + 1)) =~= pairs_view(
                    all.subrange(0, done),
                ).push(pair_view(all[done])));
                assert(pairs@ =~= all.subrange(done + 1, all.len() as int));
            }
        }
        proof {
            assert(frames_view(out@) =~= pairs_view(all));
        }
        out
    }
}

} // verus!
