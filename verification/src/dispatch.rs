use crate::domain::SubscriberEmail;
use vstd::prelude::*;

verus! {

/// Upper bound on the number of sends launched concurrently in one batch.
pub const BATCH_SIZE: usize = 20;

/// Fixed pause between two consecutive batches, in milliseconds, bounding the
/// sustained outbound send rate.
pub const INTER_BATCH_DELAY_MS: u64 = 500;

/// A subscriber that completed double opt-in confirmation and whose stored
/// address parsed successfully; only such values reach the email sender.
pub struct ConfirmedSubscriber {
    pub email: SubscriberEmail,
}

impl Clone for ConfirmedSubscriber {
    fn clone(&self) -> (r: Self)
        ensures
            r == self,
    {
        ConfirmedSubscriber { email: self.email.clone() }
    }
}

/// The population split into consecutive batches of at most `b`: full batches
/// first, a final batch with whatever remains.
pub open spec fn batches_of<T>(s: Seq<T>, b: nat) -> Seq<Seq<T>>
    decreases s.len(),
{
    if b == 0 || s.len() == 0 {
        Seq::empty()
    } else if s.len() <= b {
        seq![s]
    } else {
        seq![s.take(b as int)] + batches_of(s.skip(b as int), b)
    }
}

/// Combined length of a sequence of batches: the number of sends a run of
/// those batches issues, one send per member.
pub open spec fn total_len<T>(bs: Seq<Seq<T>>) -> nat
    decreases bs.len(),
{
    if bs.len() == 0 {
        0
    } else {
        bs[0].len() + total_len(bs.drop_first())
    }
}

/// Batching partitions the population: re-concatenating the batches gives the
/// population back in order, every batch is non-empty with at most `b`
/// members, every batch but the last holds exactly `b`, and one run issues
/// exactly one send per population member.
pub proof fn lemma_batches_partition<T>(s: Seq<T>, b: nat)
    requires
        b > 0,
    ensures
        batches_of(s, b).flatten() == s,
        total_len(batches_of(s, b)) == s.len(),
        forall|i: int|
            0 <= i < batches_of(s, b).len() ==> 0 < (#[trigger] batches_of(s, b)[i]).len() <= b,
        forall|i: int|
            0 <= i < batches_of(s, b).len() - 1 ==> (#[trigger] batches_of(s, b)[i]).len() == b,
        s.len() == 0 ==> batches_of(s, b).len() == 0,
        s.len() > 0 ==> b * (batches_of(s, b).len() - 1) < s.len() <= b * batches_of(s, b).len(),
    decreases s.len(),
{
    if s.len() == 0 {
        assert(batches_of(s, b).flatten() =~= s);
    } else if s.len() <= b {
        let bs = batches_of(s, b);
        assert(bs =~= seq![s]);
        assert(bs.len() == 1);
        assert(bs.drop_first() =~= Seq::<Seq<T>>::empty());
        assert(Seq::<Seq<T>>::empty().flatten() == Seq::<T>::empty());
        assert(bs.flatten() =~= s);
        assert(total_len(Seq::<Seq<T>>::empty()) == 0);
        assert(total_len(bs) == s.len());
        assert(b * (bs.len() - 1) == 0 && b * bs.len() == b) by (nonlinear_arith)
            requires
                bs.len() == 1,
        ;
    } else {
        let rest = s.skip(b as int);
        lemma_batches_partition(rest, b);
        let bs = batches_of(s, b);
        let nr = batches_of(rest, b).len() as int;
        assert(bs.len() == nr + 1);
        assert(bs.drop_first() =~= batches_of(rest, b));
        assert(bs.flatten() =~= bs[0] + bs.drop_first().flatten());
        assert(bs[0] + rest =~= s);
        assert(total_len(bs) == b + rest.len());
        assert forall|i: int| 0 <= i < bs.len() implies 0 < (#[trigger] bs[i]).len() <= b by {
            if i > 0 {
                assert(bs[i] == batches_of(rest, b)[i - 1]);
            }
        }
        assert forall|i: int| 0 <= i < bs.len() - 1 implies (#[trigger] bs[i]).len() == b by {
            if i > 0 {
                assert(bs[i] == batches_of(rest, b)[i - 1]);
            }
        }
        assert(b * (bs.len() - 1) == b * (nr - 1) + b && b * bs.len() == b * nr + b)
            by (nonlinear_arith)
            requires
                bs.len() == nr + 1,
        ;
    }
}

/// The batch at position `i` is exactly the population slice starting at
/// `i * b`, cut off at the population's end.
pub proof fn lemma_batches_index<T>(s: Seq<T>, b: nat, i: int)
    requires
        b > 0,
        0 <= i < batches_of(s, b).len(),
    ensures
        i * b + b <= s.len() ==> batches_of(s, b)[i] == s.subrange(i * b, i * b + b),
        i * b + b > s.len() ==> batches_of(s, b)[i] == s.subrange(i * b, s.len() as int),
    decreases s.len(),
{
    if s.len() == 0 {
        // nothing to show: there is no valid batch position
    } else if s.len() <= b {
        assert(batches_of(s, b) =~= seq![s]);
        assert(i == 0);
        assert(i * b == 0) by (nonlinear_arith)
            requires
                i == 0,
        ;
        assert(s.subrange(0, s.len() as int) =~= s);
        if i * b + b <= s.len() {
            assert(s.len() == b);
            assert(s.subrange(0, b as int) =~= s);
        }
    } else {
        let rest = s.skip(b as int);
        assert(batches_of(s, b).len() == 1 + batches_of(rest, b).len());
        if i == 0 {
            assert(i * b == 0) by (nonlinear_arith)
                requires
                    i == 0,
            ;
            assert(batches_of(s, b)[0] == s.take(b as int));
            assert(s.take(b as int) =~= s.subrange(0, b as int));
        } else {
            lemma_batches_index(rest, b, i - 1);
            assert(batches_of(s, b)[i] == batches_of(rest, b)[i - 1]);
            let j = i - 1;
            assert(j * b == i * b - b && j * b >= 0) by (nonlinear_arith)
                requires
                    j == i - 1,
                    j >= 0,
                    b > 0,
            ;
            lemma_batches_partition(rest, b);
            assert(j * b <= b * (batches_of(rest, b).len() - 1)) by (nonlinear_arith)
                requires
                    b > 0,
                    0 <= j <= batches_of(rest, b).len() - 1,
            ;
            assert(j * b <= rest.len());
            if i * b + b <= s.len() {
                assert(j * b + b <= rest.len());
                assert(batches_of(rest, b)[j] == rest.subrange(j * b, j * b + b));
                assert(rest.subrange(j * b, j * b + b) =~= s.subrange(i * b, i * b + b));
            } else {
                assert(j * b + b > rest.len());
                assert(batches_of(rest, b)[j] == rest.subrange(j * b, rest.len() as int));
                assert(rest.subrange(j * b, rest.len() as int) =~= s.subrange(
                    i * b,
                    s.len() as int,
                ));
            }
        }
    }
}

/// Re-dispatching the same population is a full second fan-out: two runs over
/// a population of `n` issue `2 * n` sends in total, with no deduplication
/// across runs.
pub proof fn lemma_repeat_dispatch<T>(s: Seq<T>, b: nat)
    requires
        b > 0,
    ensures
        total_len(batches_of(s, b)) + total_len(batches_of(s, b)) == 2 * s.len(),
{
    lemma_batches_partition(s, b);
}

/// Walks the valid population batch by batch, in resolver order. A batch is
/// handed out at most `BATCH_SIZE` members at a time, and the walk reports
/// exhaustion exactly when no subscribers remain, never by a counter
/// comparison that could run one extra empty round.
pub struct DispatchCoordinator {
    subscribers: Vec<ConfirmedSubscriber>,
    next: usize,
}

impl DispatchCoordinator {
    /// The valid population this run delivers to, in resolver order.
    pub closed spec fn population(&self) -> Seq<ConfirmedSubscriber> {
        self.subscribers@
    }

    /// How many subscribers have been handed out to batches so far.
    pub closed spec fn dispatched(&self) -> int {
        self.next as int
    }

    /// The cursor always sits on a batch boundary or at the population's end.
    pub open spec fn wf(&self) -> bool {
        &&& 0 <= self.dispatched() <= self.population().len()
        &&& (self.dispatched() % (BATCH_SIZE as int) == 0 || self.dispatched()
            == self.population().len())
    }

    pub fn new(subscribers: Vec<ConfirmedSubscriber>) -> (r: Self)
        ensures
            r.wf(),
            r.population() == subscribers@,
            r.dispatched() == 0,
    {
        DispatchCoordinator { subscribers, next: 0 }
    }

    /// True exactly when every subscriber has been placed into a batch.
    pub fn is_done(&self) -> (r: bool)
        ensures
            r == (self.dispatched() == self.population().len()),
    {
        self.next == self.subscribers.len()
    }

    /// Number of subscribers handed out so far; after the walk is done this is
    /// the number of sends the run issued.
    pub fn dispatched_count(&self) -> (r: usize)
        ensures
            r == self.dispatched(),
    {
        self.next
    }

    /// Hands out the next batch, or `None` exactly when no subscribers
    /// remain. The batch is the next population slice of at most `BATCH_SIZE`
    /// members, and it equals the corresponding batch of the spec-level
    /// partition.
    pub fn next_batch(&mut self) -> (r: Option<Vec<ConfirmedSubscriber>>)
        requires
            old(self).wf(),
        ensures
            final(self).wf(),
            final(self).population() == old(self).population(),
            r is None <==> old(self).dispatched() == old(self).population().len(),
            r is None ==> final(self).dispatched() == old(self).dispatched(),
            r is Some ==> {
                let start = old(self).dispatched();
                let stop = if start + BATCH_SIZE <= old(self).population().len() {
                    start + BATCH_SIZE
                } else {
                    old(self).population().len() as int
                };
                &&& r->0@ == old(self).population().subrange(start, stop)
                &&& final(self).dispatched() == stop
                &&& 0 < r->0@.len() <= BATCH_SIZE
                &&& r->0@ == batches_of(old(self).population(), BATCH_SIZE as nat)[start
                    / (BATCH_SIZE as int)]
            },
    {
        let len = self.subscribers.len();
        if self.next == len {
            return None;
        }
        let start = self.next;
        let stop = if len - start < BATCH_SIZE {
            len
        } else {
            start + BATCH_SIZE
        };
        let mut batch: Vec<ConfirmedSubscriber> = Vec::new();
        let mut i = start;
        while i < stop
            invariant
                start <= i <= stop <= self.subscribers@.len(),
                batch@ == self.subscribers@.subrange(start as int, i as int),
            decreases stop - i,
        {
            batch.push(self.subscribers[i].clone());
            proof {
                assert(self.subscribers@.subrange(start as int, i as int).push(
                    self.subscribers@[i as int],
                ) =~= self.subscribers@.subrange(start as int, i + 1));
            }
            i = i + 1;
        }
        self.next = stop;
        proof {
            let pop = self.subscribers@;
            let b = BATCH_SIZE as int;
            let idx = start as int / b;
            assert(start as int == idx * b);
            lemma_batches_partition(pop, BATCH_SIZE as nat);
            assert(idx < batches_of(pop, BATCH_SIZE as nat).len()) by {
                assert(idx * b < pop.len());
                assert(b * (batches_of(pop, BATCH_SIZE as nat).len() - 1) < pop.len() <= b
                    * batches_of(pop, BATCH_SIZE as nat).len());
                assert(idx * b < b * batches_of(pop, BATCH_SIZE as nat).len());
                assert(idx < batches_of(pop, BATCH_SIZE as nat).len()) by (nonlinear_arith)
                    requires
                        b > 0,
                        idx * b < b * batches_of(pop, BATCH_SIZE as nat).len(),
                ;
            }
            lemma_batches_index(pop, BATCH_SIZE as nat, idx);
        }
        Some(batch)
    }
}

/// One recorded non-fatal event: the subject it concerns and why it was
/// skipped or failed.
pub struct FailureEntry {
    pub subject: String,
    pub reason: String,
}

/// Collects skip and failure events from resolution and dispatch without
/// affecting the run's outcome.
pub struct ErrorAggregator {
    entries: Vec<FailureEntry>,
}

impl ErrorAggregator {
    /// The recorded events, oldest first.
    pub closed spec fn entries(&self) -> Seq<FailureEntry> {
        self.entries@
    }

    pub fn new() -> (r: Self)
        ensures
            r.entries() == Seq::<FailureEntry>::empty(),
    {
        ErrorAggregator { entries: Vec::new() }
    }

    /// Appends one event; never fails and never alters earlier entries.
    pub fn record(&mut self, subject: String, reason: String)
        ensures
            final(self).entries() == old(self).entries().push(FailureEntry { subject, reason }),
    {
        self.entries.push(FailureEntry { subject, reason });
    }

    pub fn count(&self) -> (r: usize)
        ensures
            r == self.entries().len(),
    {
        self.entries.len()
    }

    pub fn entries_vec(&self) -> (r: &Vec<FailureEntry>)
        ensures
            r@ == self.entries(),
    {
        &self.entries
    }
}

} // verus!
