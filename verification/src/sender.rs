//! Batch Sender: partitions a validated event sequence into bounded
//! batches, sends each in source order, and aggregates per-batch
//! outcomes. A batch that fails even after retries never aborts the
//! remaining run; it only adds to the failure total.

use vstd::prelude::*;
use vstd::string::*;
use crate::events::Event;
use crate::text::push_char;

verus! {

/// The default bound on a batch.
pub const DEFAULT_BATCH_SIZE: usize = 100;

/// How many batches a run over `n` events makes with batches of `size`.
pub open spec fn batch_count(n: nat, size: nat) -> nat {
    ((n + size - 1) as nat) / size
}

/// The cut points of a run over `n` events with batches of `size`:
/// batch `i` covers the half-open index range `r[i].0 .. r[i].1`.
/// Batches are consecutive, in order, each at most `size` wide, and
/// together they cover `0 .. n`.
pub fn batch_bounds(n: usize, size: usize) -> (r: Vec<(usize, usize)>)
    requires
        size >= 1,
    ensures
        r@.len() == batch_count(n as nat, size as nat),
        forall|i: int|
            0 <= i < r@.len() ==> (#[trigger] r@[i]).0 == i * size && r@[i].1 == (if i * size
                + size <= n {
                i * size + size
            } else {
                n as int
            }),
{
    let mut r: Vec<(usize, usize)> = Vec::new();
    let mut start: usize = 0;
    proof {
        assert(r@.len() * size == 0) by (nonlinear_arith)
            requires
                r@.len() == 0,
        ;
    }
    while start < n
        invariant
            size >= 1,
            start <= n,
            start == r@.len() * size || (start == n && r@.len() >= 1 && (r@.len() - 1) * size < n
                && n < r@.len() * size),
            forall|i: int|
                0 <= i < r@.len() ==> (#[trigger] r@[i]).0 == i * size && r@[i].1 == (if i * size
                    + size <= n {
                    i * size + size
                } else {
                    n as int
                }),
        decreases n - start,
    {
        let end = if size <= n && start <= n - size {
            start + size
        } else {
            n
        };
        let ghost old_len = r@.len();
        proof {
            assert(start == old_len * size);
            assert((old_len + 1) * size == old_len * size + size) by (nonlinear_arith);
        }
        r.push((start, end));
        start = end;
    }
    proof {
        let m = r@.len() as int;
        if n == 0 {
            assert(m * size == 0 ==> m == 0) by (nonlinear_arith)
                requires
                    size >= 1,
                    m >= 0,
            ;
            assert(((size - 1) as int) / (size as int) == 0) by (nonlinear_arith)
                requires
                    size >= 1,
            ;
            assert(batch_count(n as nat, size as nat) == 0);
        } else if start == m * size {
            assert(m >= 1) by (nonlinear_arith)
                requires
                    m * size == n,
                    n >= 1,
                    size >= 1,
                    m >= 0,
            ;
            assert((m - 1) * size == m * size - size) by (nonlinear_arith);
            lemma_batch_count(n as nat, size as nat, m as nat);
        } else {
            lemma_batch_count(n as nat, size as nat, m as nat);
        }
    }
    r
}

proof fn lemma_batch_count(n: nat, size: nat, m: nat)
    requires
        size >= 1,
        n >= 1,
        m >= 1,
        m * size >= n,
        (m - 1) * size < n,
    ensures
        batch_count(n, size) == m,
{
    assert(((n + size - 1) as int) / (size as int) == m as int) by (nonlinear_arith)
        requires
            size >= 1,
            n >= 1,
            m >= 1,
            m * size >= n,
            (m - 1) * size < n,
    ;
}

// ---------------------------------------------------------------------------
// The outbound payload
// ---------------------------------------------------------------------------

/// The serialized forms of the events, in order.
pub open spec fn raws_of(evs: Seq<Event>) -> Seq<Seq<char>> {
    evs.map_values(|e: Event| e.raw@)
}

/// The pieces joined with commas.
pub open spec fn join_comma(parts: Seq<Seq<char>>) -> Seq<char>
    decreases parts.len(),
{
    if parts.len() == 0 {
        Seq::empty()
    } else if parts.len() == 1 {
        parts.last()
    } else {
        join_comma(parts.drop_last()) + seq![','] + parts.last()
    }
}

/// One outbound body: the batch as a JSON array holding each event's
/// canonical serialized form, byte for byte.
pub open spec fn payload_spec(parts: Seq<Seq<char>>) -> Seq<char> {
    seq!['['] + join_comma(parts) + seq![']']
}

/// Builds the body for the batch covering events `start .. end`.
/// Each event's serialized form appears in it unchanged.
pub fn batch_payload(events: &Vec<Event>, start: usize, end: usize) -> (r: String)
    requires
        start <= end <= events@.len(),
    ensures
        r@ == payload_spec(raws_of(events@.subrange(start as int, end as int))),
{
    let mut body = String::new();
    push_char(&mut body, '[');
    let mut k = start;
    while k < end
        invariant
            start <= k <= end <= events@.len(),
            body@ == seq!['['] + join_comma(raws_of(events@.subrange(start as int, k as int))),
        decreases end - k,
    {
        let ghost parts = raws_of(events@.subrange(start as int, k as int));
        if k > start {
            push_char(&mut body, ',');
        }
        body.append(events[k].raw.as_str());
        proof {
            let parts2 = raws_of(events@.subrange(start as int, k + 1));
            assert(events@.subrange(start as int, k + 1).drop_last() =~= events@.subrange(
                start as int,
                k as int,
            ));
            assert(parts2.drop_last() =~= parts);
            assert(parts2.last() == events@[k as int].raw@);
            if k > start {
                assert(parts.len() >= 1);
                assert(join_comma(parts2) == join_comma(parts) + seq![','] + parts2.last());
                assert(body@ =~= seq!['['] + join_comma(parts2));
            } else {
                assert(parts.len() == 0);
                assert(parts2.len() == 1);
                assert(join_comma(parts2) == parts2.last());
                assert(body@ =~= seq!['['] + join_comma(parts2));
            }
        }
        k += 1;
    }
    push_char(&mut body, ']');
    proof {
        assert(body@ =~= payload_spec(raws_of(events@.subrange(start as int, end as int))));
    }
    body
}

// ---------------------------------------------------------------------------
// Outcome aggregation
// ---------------------------------------------------------------------------

/// Totals of a run: how many events were delivered and how many were
/// given up on after their batch exhausted its retries.
pub struct SendReport {
    pub successful: usize,
    pub failed: usize,
}

impl SendReport {
    /// A run that has not delivered anything yet.
    pub fn new() -> (r: SendReport)
        ensures
            r.successful == 0,
            r.failed == 0,
    {
        SendReport { successful: 0, failed: 0 }
    }

    /// Folds one batch outcome into the totals: the whole batch counts
    /// as delivered or as failed, and the run goes on either way.
    pub fn record(&mut self, events_in_batch: usize, delivered: bool)
        requires
            delivered ==> old(self).successful + events_in_batch <= usize::MAX,
            !delivered ==> old(self).failed + events_in_batch <= usize::MAX,
        ensures
            delivered ==> final(self).successful == old(self).successful + events_in_batch
                && final(self).failed == old(self).failed,
            !delivered ==> final(self).failed == old(self).failed + events_in_batch
                && final(self).successful == old(self).successful,
    {
        if delivered {
            self.successful = self.successful + events_in_batch;
        } else {
            self.failed = self.failed + events_in_batch;
        }
    }
}

/// The number of events over all batches.
pub open spec fn sum_sizes(sizes: Seq<usize>) -> int
    decreases sizes.len(),
{
    if sizes.len() == 0 {
        0
    } else {
        sum_sizes(sizes.drop_last()) + sizes.last()
    }
}

/// The number of events in the batches whose outcome equals `wanted`.
pub open spec fn sum_where(sizes: Seq<usize>, oks: Seq<bool>, wanted: bool) -> int
    decreases sizes.len(),
{
    if sizes.len() == 0 {
        0
    } else {
        sum_where(sizes.drop_last(), oks.drop_last(), wanted) + if oks.len() == sizes.len()
            && oks.last() == wanted {
            sizes.last() as int
        } else {
            0
        }
    }
}

proof fn lemma_sums_split(sizes: Seq<usize>, oks: Seq<bool>)
    requires
        sizes.len() == oks.len(),
    ensures
        sum_where(sizes, oks, true) >= 0,
        sum_where(sizes, oks, false) >= 0,
        sum_where(sizes, oks, true) + sum_where(sizes, oks, false) == sum_sizes(sizes),
    decreases sizes.len(),
{
    if sizes.len() > 0 {
        lemma_sums_split(sizes.drop_last(), oks.drop_last());
    }
}

proof fn lemma_sum_sizes_prefix(sizes: Seq<usize>, i: int)
    requires
        0 <= i <= sizes.len(),
    ensures
        sum_sizes(sizes.take(i)) <= sum_sizes(sizes),
    decreases sizes.len() - i,
{
    if i < sizes.len() {
        assert(sizes.take(i + 1).drop_last() =~= sizes.take(i));
        lemma_sum_sizes_prefix(sizes, i + 1);
    } else {
        assert(sizes.take(i) =~= sizes);
    }
}

/// Computes the run's totals from the batch sizes and each batch's
/// final outcome (true: delivered, false: given up on).
pub fn tally_outcomes(sizes: &Vec<usize>, delivered: &Vec<bool>) -> (r: SendReport)
    requires
        sizes@.len() == delivered@.len(),
        sum_sizes(sizes@) <= usize::MAX,
    ensures
        r.successful == sum_where(sizes@, delivered@, true),
        r.failed == sum_where(sizes@, delivered@, false),
{
    let mut report = SendReport::new();
    let n = sizes.len();
    let mut i: usize = 0;
    while i < n
        invariant
            n == sizes@.len(),
            n == delivered@.len(),
            i <= n,
            sum_sizes(sizes@) <= usize::MAX,
            report.successful == sum_where(sizes@.take(i as int), delivered@.take(i as int), true),
            report.failed == sum_where(sizes@.take(i as int), delivered@.take(i as int), false),
        decreases n - i,
    {
        proof {
            lemma_sums_split(sizes@.take(i as int), delivered@.take(i as int));
            lemma_sums_split(sizes@.take(i + 1), delivered@.take(i + 1));
            lemma_sum_sizes_prefix(sizes@, i + 1);
            assert(sizes@.take(i + 1).drop_last() =~= sizes@.take(i as int));
            assert(delivered@.take(i + 1).drop_last() =~= delivered@.take(i as int));
        }
        report.record(sizes[i], delivered[i]);
        i += 1;
    }
    proof {
        assert(sizes@.take(n as int) =~= sizes@);
        assert(delivered@.take(n as int) =~= delivered@);
    }
    report
}

/// Law: when every batch is delivered, nothing is counted failed and
/// the success total is the whole run.
pub proof fn lemma_all_delivered(sizes: Seq<usize>, oks: Seq<bool>)
    requires
        sizes.len() == oks.len(),
        forall|i: int| 0 <= i < oks.len() ==> oks[i],
    ensures
        sum_where(sizes, oks, false) == 0,
        sum_where(sizes, oks, true) == sum_sizes(sizes),
    decreases sizes.len(),
{
    if sizes.len() > 0 {
        lemma_all_delivered(sizes.drop_last(), oks.drop_last());
    }
}

/// Law: over a run where exactly batch `k` fails and every other batch
/// is delivered, the failure total is the size of batch `k` and the
/// success total is the size of everything else — wherever `k` stands.
pub proof fn lemma_single_batch_failure(sizes: Seq<usize>, oks: Seq<bool>, k: int)
    requires
        sizes.len() == oks.len(),
        0 <= k < sizes.len(),
        forall|i: int| 0 <= i < oks.len() ==> (oks[i] <==> i != k),
    ensures
        sum_where(sizes, oks, false) == sizes[k],
        sum_where(sizes, oks, true) == sum_sizes(sizes) - sizes[k],
    decreases sizes.len(),
{
    lemma_sums_split(sizes, oks);
    if k == sizes.len() - 1 {
        assert(forall|i: int| 0 <= i < oks.drop_last().len() ==> oks.drop_last()[i]);
        lemma_all_delivered(sizes.drop_last(), oks.drop_last());
    } else {
        assert(forall|i: int|
            0 <= i < oks.drop_last().len() ==> (oks.drop_last()[i] <==> i != k));
        lemma_single_batch_failure(sizes.drop_last(), oks.drop_last(), k);
    }
}

} // verus!
