//! Bounded time-series buffers: append-only with oldest-first eviction.

use std::collections::VecDeque;
use vstd::prelude::*;

verus! {

broadcast use vstd::std_specs::vecdeque::axiom_spec_len;

/// What one append to a bounded buffer yields: when the buffer is
/// already at (or beyond) `max` entries, the oldest entry is evicted
/// before the new one is appended.
pub open spec fn push_bounded_spec<T>(s: Seq<T>, value: T, max: nat) -> Seq<T> {
    if s.len() >= max && s.len() > 0 {
        s.subrange(1, s.len() as int).push(value)
    } else {
        s.push(value)
    }
}

/// Pushes `value` into `buf`, evicting the oldest entry when full.
pub fn push_bounded<T>(buf: &mut VecDeque<T>, value: T, max: usize)
    ensures
        final(buf)@ == push_bounded_spec(old(buf)@, value, max as nat),
        old(buf)@.len() <= max && max > 0 ==> final(buf)@.len() <= max,
{
    if buf.len() >= max {
        buf.pop_front();
    }
    buf.push_back(value);
}

/// The buffer contents after a whole run of bounded appends, oldest
/// first.
pub open spec fn push_all<T>(s: Seq<T>, vs: Seq<T>, max: nat) -> Seq<T>
    decreases vs.len(),
{
    if vs.len() == 0 {
        s
    } else {
        push_all(push_bounded_spec(s, vs[0], max), vs.drop_first(), max)
    }
}

/// Shape of a buffer after any run of appends: as long as everything
/// fits, the points pile up in order; once the capacity is exceeded,
/// exactly the newest `max` points remain.
proof fn lemma_push_all_shape<T>(s: Seq<T>, vs: Seq<T>, max: nat)
    requires
        max >= 1,
        s.len() <= max,
    ensures
        push_all(s, vs, max) == if s.len() + vs.len() <= max {
            s + vs
        } else {
            (s + vs).subrange(s.len() + vs.len() - max, (s.len() + vs.len()) as int)
        },
    decreases vs.len(),
{
    if vs.len() == 0 {
        assert(s + vs =~= s);
    } else {
        let s1 = push_bounded_spec(s, vs[0], max);
        let rest = vs.drop_first();
        let total = s.len() + vs.len();
        lemma_push_all_shape(s1, rest, max);
        if s.len() < max {
            assert(s1 + rest =~= s + vs);
            if s1.len() + rest.len() > max {
                assert((s1 + rest).subrange(
                    s1.len() + rest.len() - max,
                    (s1.len() + rest.len()) as int,
                ) =~= (s + vs).subrange(total - max, total as int));
            }
        } else {
            // Full buffer: the oldest point is evicted up front, so the
            // run continues on the tail of `s + vs`.
            assert(s1 + rest =~= (s + vs).subrange(1, total as int));
            if s1.len() + rest.len() <= max {
                assert(s1 + rest =~= (s + vs).subrange(total - max, total as int));
            } else {
                assert((s1 + rest).subrange(
                    s1.len() + rest.len() - max,
                    (s1.len() + rest.len()) as int,
                ) =~= (s + vs).subrange(total - max, total as int));
            }
        }
    }
}

/// Law of the bounded history: appending at least `max` points to a
/// buffer that starts empty always leaves exactly `max` points, and
/// they are the most recent `max` insertions in their original order.
pub proof fn lemma_history_window<T>(vs: Seq<T>, max: nat)
    requires
        1 <= max <= vs.len(),
    ensures
        push_all(Seq::<T>::empty(), vs, max) == vs.subrange(vs.len() - max, vs.len() as int),
        push_all(Seq::<T>::empty(), vs, max).len() == max,
{
    lemma_push_all_shape(Seq::<T>::empty(), vs, max);
    if vs.len() == max {
        assert(Seq::<T>::empty() + vs =~= vs.subrange(vs.len() - max, vs.len() as int));
    } else {
        assert((Seq::<T>::empty() + vs).subrange(vs.len() - max, vs.len() as int) =~= vs.subrange(
            vs.len() - max,
            vs.len() as int,
        ));
    }
}

} // verus!
