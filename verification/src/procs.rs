//! Process snapshot ranker: orders a raw process inventory by
//! descending CPU usage with a stable sort.

use vstd::prelude::*;
use vstd::seq_lib::lemma_multiset_commutative;
use vstd::seq_lib::to_multiset_build;

verus! {

/// Snapshot of a single process, produced fresh every cycle from the
/// raw inventory. Usage is carried in hundredths of a percent so that
/// ranking is a total order; the sampler is responsible for mapping
/// non-finite readings to zero before they reach this crate.
#[derive(Debug, Clone)]
pub struct ProcessInfo {
    /// Platform process identifier, unique within one snapshot.
    pub pid: u32,
    /// Display name of the process.
    pub name: String,
    /// Instantaneous CPU usage in hundredths of a percent.
    pub cpu_usage: u64,
    /// Resident memory in bytes.
    pub memory: u64,
}

/// Adjacent entries never increase in CPU usage.
pub open spec fn sorted_desc(s: Seq<ProcessInfo>) -> bool {
    forall|i: int, j: int|
        0 <= i <= j < s.len() ==> #[trigger] s[i].cpu_usage >= #[trigger] s[j].cpu_usage
}

/// Holds of the entries that carry one given usage value.
pub open spec fn has_usage(c: u64) -> spec_fn(ProcessInfo) -> bool {
    |p: ProcessInfo| p.cpu_usage == c
}

/// The subsequence of entries with one given usage value, in order.
pub open spec fn key_filter(s: Seq<ProcessInfo>, c: u64) -> Seq<ProcessInfo> {
    s.filter(has_usage(c))
}

/// What ranking promises: the output is the input inventory, sorted
/// descending by CPU usage, with ties left in the inventory's own
/// order (for every usage value, the entries carrying it form the
/// same subsequence before and after).
pub open spec fn ranked(inv: Seq<ProcessInfo>, out: Seq<ProcessInfo>) -> bool {
    &&& out.len() == inv.len()
    &&& sorted_desc(out)
    &&& out.to_multiset() == inv.to_multiset()
    &&& forall|c: u64| #[trigger] key_filter(out, c) == key_filter(inv, c)
}

/// Sorts the raw inventory by descending CPU usage with a stable
/// insertion sort. Usage values are plain integers, so the comparison
/// is total and the sort can never fail, whatever the sampler
/// produced.
pub fn rank_processes(procs: Vec<ProcessInfo>) -> (r: Vec<ProcessInfo>)
    ensures
        ranked(procs@, r@),
{
    let ghost orig = procs@;
    let mut rest = procs;
    let mut out: Vec<ProcessInfo> = Vec::new();
    proof {
        assert(orig.take(0) =~= out@);
    }
    while rest.len() > 0
        invariant
            out@.len() + rest@.len() == orig.len(),
            rest@ == orig.subrange(out@.len() as int, orig.len() as int),
            sorted_desc(out@),
            out@.to_multiset() == orig.take(out@.len() as int).to_multiset(),
            forall|c: u64| #[trigger] key_filter(out@, c) == key_filter(
                orig.take(out@.len() as int),
                c,
            ),
        decreases rest@.len(),
    {
        let ghost done = out@.len() as int;
        let ghost out0 = out@;
        let x = rest.remove(0);
        proof {
            assert(x == orig[done]);
            assert(rest@ =~= orig.subrange(done + 1, orig.len() as int));
        }
        let mut j = out.len();
        while j > 0 && out[j - 1].cpu_usage < x.cpu_usage
            invariant
                j <= out@.len(),
                out@ == out0,
                forall|m: int| j <= m < out@.len() ==> #[trigger] out@[m].cpu_usage < x.cpu_usage,
            decreases j,
        {
            j = j - 1;
        }
        out.insert(j, x);
        proof {
            lemma_insert_step(out0, orig, done, j as int, x);
            assert(out@ == out0.insert(j as int, x));
        }
    }
    proof {
        assert(orig.take(orig.len() as int) =~= orig);
    }
    out
}

/// One step of the insertion sort: inserting the next inventory entry
/// at the scanned position keeps the output sorted, a permutation of
/// the processed prefix, and stable for every usage value.
proof fn lemma_insert_step(out0: Seq<ProcessInfo>, orig: Seq<ProcessInfo>, done: int, j: int, x: ProcessInfo)
    requires
        0 <= done < orig.len(),
        x == orig[done],
        out0.len() == done,
        0 <= j <= out0.len(),
        sorted_desc(out0),
        j > 0 ==> out0[j - 1].cpu_usage >= x.cpu_usage,
        forall|m: int| j <= m < out0.len() ==> #[trigger] out0[m].cpu_usage < x.cpu_usage,
        out0.to_multiset() == orig.take(done).to_multiset(),
        forall|c: u64| #[trigger] key_filter(out0, c) == key_filter(orig.take(done), c),
    ensures
        sorted_desc(out0.insert(j, x)),
        out0.insert(j, x).to_multiset() == orig.take(done + 1).to_multiset(),
        forall|c: u64| #[trigger] key_filter(out0.insert(j, x), c) == key_filter(
            orig.take(done + 1),
            c,
        ),
{
    let out1 = out0.insert(j, x);
    let front = out0.subrange(0, j);
    let back = out0.subrange(j, out0.len() as int);
    out0.insert_ensures(j, x);
    assert(out0 =~= front + back);
    assert(out1 == front.push(x) + back);
    orig.lemma_take_succ_push(done);
    assert(orig.take(done + 1) == orig.take(done).push(x));

    // Order is preserved around the insertion point.
    assert forall|a: int, b: int| 0 <= a <= b < out1.len() implies #[trigger] out1[a].cpu_usage
        >= #[trigger] out1[b].cpu_usage by {
        if a < j && j < b {
            assert(out1[a] == out0[a]);
            assert(out1[b] == out0[b - 1]);
        }
    }

    // The inserted entry joins the multiset of the processed prefix.
    lemma_multiset_commutative(front.push(x), back);
    lemma_multiset_commutative(front, back);
    to_multiset_build(front, x);
    to_multiset_build(orig.take(done), x);
    assert(out1.to_multiset() =~= orig.take(done + 1).to_multiset());

    // Entries of each usage value keep their relative order: the
    // scanned suffix holds only strictly smaller values, so the new
    // entry lands right after its last equal.
    assert forall|c: u64| #[trigger] key_filter(out1, c) == key_filter(orig.take(done + 1), c) by {
        let pred = has_usage(c);
        assert(key_filter(out0, c) == key_filter(orig.take(done), c));
        Seq::filter_distributes_over_add(front.push(x), back, pred);
        Seq::filter_distributes_over_add(front, back, pred);
        front.lemma_filter_push(x, pred);
        orig.take(done).lemma_filter_push(x, pred);
        if x.cpu_usage == c {
            assert(back.all(|p: ProcessInfo| !pred(p)));
            back.lemma_all_neg_filter_empty(pred);
            assert(back.filter(pred) =~= Seq::<ProcessInfo>::empty());
            assert(front.filter(pred) + back.filter(pred) =~= front.filter(pred));
            assert(front.filter(pred).push(x) + back.filter(pred) =~= front.filter(pred).push(x));
            assert(key_filter(out1, c) == key_filter(out0, c).push(x));
            assert(key_filter(orig.take(done + 1), c) == key_filter(orig.take(done), c).push(x));
        } else {
            assert(key_filter(out1, c) == key_filter(out0, c));
            assert(key_filter(orig.take(done + 1), c) == key_filter(orig.take(done), c));
        }
    }
}

} // verus!
