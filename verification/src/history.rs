//! A window over the recent samples of a time series.
//!
//! Times and values are whole numbers in units of the caller's choice. A
//! quotient is handed out as a [`Ratio`], so that nothing is rounded here.

use std::collections::VecDeque;
use vstd::prelude::*;

verus! {

/// One value and the time at which it was added.
#[derive(Clone, Copy, Debug, PartialEq, Eq, Structural)]
pub struct Sample {
    pub time: u64,
    pub value: u64,
}

/// The quotient `numerator / denominator`, not yet divided. The denominator is
/// zero where all samples carry the same time.
#[derive(Clone, Copy, Debug, PartialEq, Eq, Structural)]
pub struct Ratio {
    pub numerator: u128,
    pub denominator: u64,
}

/// The times never decrease from one sample to the next.
pub open spec fn ordered(samples: Seq<Sample>) -> bool {
    forall|i: int, j: int| 0 <= i <= j < samples.len() ==> samples[i].time <= samples[j].time
}

/// The sum of the values.
pub open spec fn total(samples: Seq<Sample>) -> nat
    decreases samples.len(),
{
    if samples.len() == 0 {
        0
    } else {
        total(samples.drop_last()) + samples.last().value as nat
    }
}

/// The newest `max_len` samples.
pub open spec fn capped(samples: Seq<Sample>, max_len: nat) -> Seq<Sample> {
    if samples.len() > max_len {
        samples.skip(samples.len() - max_len)
    } else {
        samples
    }
}

/// A sample is stale at `now` when it is older than `max_age`.
pub open spec fn stale(sample: Sample, max_age: nat, now: nat) -> bool {
    sample.time + max_age < now
}

/// Drops the oldest sample for as long as it is stale and more than `min_len`
/// samples are there.
pub open spec fn expired(samples: Seq<Sample>, min_len: nat, max_age: nat, now: nat) -> Seq<
    Sample,
>
    decreases samples.len(),
{
    if samples.len() > min_len && stale(samples[0], max_age, now) {
        expired(samples.skip(1), min_len, max_age, now)
    } else {
        samples
    }
}

/// What a flush at `now` leaves of `samples`: first the newest `max_len`, then
/// of these what has not expired.
pub open spec fn flushed(
    samples: Seq<Sample>,
    min_len: nat,
    max_len: nat,
    max_age: nat,
    now: nat,
) -> Seq<Sample> {
    expired(capped(samples, max_len), min_len, max_age, now)
}

/// The time from the oldest sample to the newest.
pub open spec fn span(samples: Seq<Sample>) -> int {
    if samples.len() == 0 {
        0
    } else {
        samples.last().time - samples[0].time
    }
}

/// Expiry only ever drops samples from the old end, and it drops exactly the
/// stale ones that it may: whatever is dropped was stale, and where more than
/// `min_len` samples stay, the oldest of them is not.
pub proof fn lemma_expired(samples: Seq<Sample>, min_len: nat, max_age: nat, now: nat)
    ensures
        ({
            let kept = expired(samples, min_len, max_age, now);
            let dropped = samples.len() - kept.len();
            &&& kept.len() <= samples.len()
            &&& kept == samples.skip(dropped)
            &&& samples.len() <= min_len ==> kept == samples
            &&& samples.len() >= min_len ==> kept.len() >= min_len
            &&& forall|i: int| 0 <= i < dropped ==> stale(#[trigger] samples[i], max_age, now)
            &&& kept.len() > min_len ==> !stale(kept[0], max_age, now)
        }),
    decreases samples.len(),
{
    if samples.len() > min_len && stale(samples[0], max_age, now) {
        let rest = samples.skip(1);
        lemma_expired(rest, min_len, max_age, now);
        let kept = expired(rest, min_len, max_age, now);
        let dropped = samples.len() - kept.len();
        assert(kept =~= samples.skip(dropped));
        assert forall|i: int| 0 <= i < dropped implies stale(
            #[trigger] samples[i],
            max_age,
            now,
        ) by {
            if i > 0 {
                assert(samples[i] == rest[i - 1]);
            }
        }
    } else {
        assert(samples =~= samples.skip(0));
    }
}

/// The window that a flush leaves. Of ordered samples it keeps a newest part,
/// at most `max_len` long; and where it keeps more than `min_len`, every one
/// of them is at most `max_age` old.
pub proof fn lemma_flushed_window(
    samples: Seq<Sample>,
    min_len: nat,
    max_len: nat,
    max_age: nat,
    now: nat,
)
    requires
        ordered(samples),
    ensures
        ({
            let kept = flushed(samples, min_len, max_len, max_age, now);
            &&& kept.len() <= samples.len()
            &&& kept.len() <= max_len
            &&& kept == samples.skip(samples.len() - kept.len())
            &&& ordered(kept)
            &&& kept.len() > min_len ==> forall|i: int|
                0 <= i < kept.len() ==> (#[trigger] kept[i]).time + max_age >= now
            &&& samples.len() <= max_len ==> forall|i: int|
                0 <= i < samples.len() - kept.len() ==> stale(#[trigger] samples[i], max_age, now)
        }),
{
    let newest = capped(samples, max_len);
    lemma_expired(newest, min_len, max_age, now);
    let kept = flushed(samples, min_len, max_len, max_age, now);
    assert(kept =~= samples.skip(samples.len() - kept.len()));
    if kept.len() > min_len {
        assert forall|i: int| 0 <= i < kept.len() implies (#[trigger] kept[i]).time + max_age
            >= now by {
            assert(kept[0].time <= kept[i].time);
        }
    }
}

/// No sample is later than `bound`.
pub open spec fn until(samples: Seq<Sample>, bound: nat) -> bool {
    forall|i: int| 0 <= i < samples.len() ==> (#[trigger] samples[i]).time <= bound
}

/// A sample that is not older than the newest may be appended to ordered
/// samples, and they stay ordered.
pub proof fn lemma_ordered_push(samples: Seq<Sample>, sample: Sample)
    requires
        ordered(samples),
        samples.len() > 0 ==> samples.last().time <= sample.time,
    ensures
        ordered(samples.push(sample)),
        until(samples.push(sample), sample.time as nat),
{
    let longer = samples.push(sample);
    assert forall|i: int, j: int| 0 <= i <= j < longer.len() implies longer[i].time
        <= longer[j].time by {
        if j < samples.len() {
            assert(samples[i].time <= samples[j].time);
        } else if i < samples.len() {
            assert(samples[i].time <= samples.last().time);
        }
    }
    assert forall|i: int| 0 <= i < longer.len() implies (#[trigger] longer[i]).time
        <= sample.time by {
        assert(longer[i].time <= longer[longer.len() - 1].time);
    }
}

/// A sample that is added at `now` is still there after the flush that
/// follows, as the newest, wherever at least one sample may be held.
pub proof fn lemma_added_sample_stays(
    samples: Seq<Sample>,
    sample: Sample,
    min_len: nat,
    max_len: nat,
    max_age: nat,
)
    requires
        max_len >= 1,
    ensures
        ({
            let kept = flushed(
                samples.push(sample),
                min_len,
                max_len,
                max_age,
                sample.time as nat,
            );
            kept.len() >= 1 && kept.last() == sample
        }),
{
    let longer = samples.push(sample);
    let newest = capped(longer, max_len);
    assert(newest.len() >= 1 && newest.last() == sample);
    lemma_expired(newest, min_len, max_age, sample.time as nat);
    let kept = expired(newest, min_len, max_age, sample.time as nat);
    let dropped = newest.len() - kept.len();
    if dropped == newest.len() {
        assert(stale(newest[newest.len() - 1], max_age, sample.time as nat));
    }
}

/// The window that a flush at `now` leaves: `after` is the newest part of
/// `before`, in order and no more than `max_len`. Where more than `min_len`
/// stay, none of them is older than `max_age`. And where `before` was within
/// the count, a sample has left only if it was older than `max_age` at
/// `now`, and only as long as more than `min_len` were there.
pub open spec fn window_of(
    before: Seq<Sample>,
    after: Seq<Sample>,
    min_len: nat,
    max_len: nat,
    max_age: nat,
    now: nat,
) -> bool {
    &&& after.len() <= before.len()
    &&& after.len() <= max_len
    &&& after == before.skip(before.len() - after.len())
    &&& ordered(after)
    &&& after.len() > min_len ==> forall|i: int|
        0 <= i < after.len() ==> (#[trigger] after[i]).time + max_age >= now
    &&& before.len() <= max_len ==> forall|i: int|
        0 <= i < before.len() - after.len() ==> stale(#[trigger] before[i], max_age, now)
    &&& before.len() <= max_len && after.len() < before.len() ==> after.len() >= min_len
}

/// What a flush leaves is such a window.
pub proof fn lemma_flushed_is_window(
    samples: Seq<Sample>,
    min_len: nat,
    max_len: nat,
    max_age: nat,
    now: nat,
)
    requires
        ordered(samples),
    ensures
        window_of(
            samples,
            flushed(samples, min_len, max_len, max_age, now),
            min_len,
            max_len,
            max_age,
            now,
        ),
{
    lemma_flushed_window(samples, min_len, max_len, max_age, now);
    lemma_expired(capped(samples, max_len), min_len, max_age, now);
}

/// The time under which a sample taken at `now` is filed: `now`, or the time
/// of the newest sample where `now` lies before it, so that the samples stay
/// in the order of their times.
pub open spec fn filed_at(samples: Seq<Sample>, now: u64) -> u64 {
    if samples.len() > 0 && samples.last().time > now {
        samples.last().time
    } else {
        now
    }
}

/// The sum grows by the value that is pushed.
pub proof fn lemma_total_push(samples: Seq<Sample>, sample: Sample)
    ensures
        total(samples.push(sample)) == total(samples) + sample.value,
{
    assert(samples.push(sample).drop_last() =~= samples);
}

/// No sum is larger than as many times the largest value.
pub proof fn lemma_total_bound(samples: Seq<Sample>)
    ensures
        total(samples) <= samples.len() * 0xffff_ffff_ffff_ffff,
    decreases samples.len(),
{
    if samples.len() > 0 {
        lemma_total_bound(samples.drop_last());
        assert((samples.len() - 1) * 0xffff_ffff_ffff_ffff + 0xffff_ffff_ffff_ffff == samples.len()
            * 0xffff_ffff_ffff_ffff) by (nonlinear_arith);
    }
}

/// The recent samples of a time series, oldest first, bounded in number and in age.
pub struct History {
    min_len: usize,
    max_len: usize,
    max_age: u64,
    values: VecDeque<Sample>,
}

impl History {
    /// The samples that are held, oldest first.
    pub closed spec fn samples(&self) -> Seq<Sample> {
        self.values@
    }

    /// The number of samples below which age alone removes nothing.
    pub closed spec fn min_len(&self) -> nat {
        self.min_len as nat
    }

    /// The largest number of samples that is kept.
    pub closed spec fn max_len(&self) -> nat {
        self.max_len as nat
    }

    /// The age beyond which a sample expires.
    pub closed spec fn max_age(&self) -> nat {
        self.max_age as nat
    }

    /// The samples are in the order of their times, and no more than `max_len`.
    pub open spec fn wf(&self) -> bool {
        &&& ordered(self.samples())
        &&& self.samples().len() <= self.max_len()
    }

    /// Two histories have the same limits.
    pub open spec fn same_limits(&self, other: &History) -> bool {
        &&& self.min_len() == other.min_len()
        &&& self.max_len() == other.max_len()
        &&& self.max_age() == other.max_age()
    }

    /// An empty history that keeps between `min_len` and `max_len` samples and
    /// lets them expire after `max_age`.
    pub fn new(min_len: usize, max_len: usize, max_age: u64) -> (history: Self)
        ensures
            history.wf(),
            history.samples() == Seq::<Sample>::empty(),
            history.min_len() == min_len,
            history.max_len() == max_len,
            history.max_age() == max_age,
    {
        History { min_len, max_len, max_age, values: VecDeque::new() }
    }

    /// The number of samples that are held.
    pub fn len(&self) -> (n: usize)
        ensures
            n == self.samples().len(),
    {
        self.values.len()
    }

    /// No sample is held.
    pub fn is_empty(&self) -> (b: bool)
        ensures
            b == (self.samples().len() == 0),
    {
        self.values.len() == 0
    }

    /// The sample at place `i`, counted from the oldest.
    pub fn get(&self, i: usize) -> (sample: Option<Sample>)
        ensures
            i < self.samples().len() ==> sample == Some(self.samples()[i as int]),
            i >= self.samples().len() ==> sample is None,
    {
        if i < self.values.len() {
            Some(self.values[i])
        } else {
            None
        }
    }

    /// The time of the newest sample.
    pub fn newest_time(&self) -> (time: Option<u64>)
        ensures
            self.samples().len() == 0 ==> time is None,
            self.samples().len() > 0 ==> time == Some(self.samples().last().time),
    {
        let n: usize = self.values.len();
        if n == 0 {
            None
        } else {
            Some(self.values[n - 1].time)
        }
    }

    /// Removes the samples that are over the count, then those that are too old
    /// at `now`, but never goes below `min_len` samples on account of age.
    pub fn flush(&mut self, now: u64)
        requires
            ordered(old(self).samples()),
        ensures
            final(self).samples() == flushed(
                old(self).samples(),
                old(self).min_len(),
                old(self).max_len(),
                old(self).max_age(),
                now as nat,
            ),
            final(self).same_limits(old(self)),
            final(self).wf(),
            window_of(
                old(self).samples(),
                final(self).samples(),
                old(self).min_len(),
                old(self).max_len(),
                old(self).max_age(),
                now as nat,
            ),
            forall|bound: nat|
                until(old(self).samples(), bound) ==> until(final(self).samples(), bound),
    {
        let ghost before = self.values@;
        while self.values.len() > self.max_len
            invariant
                self.same_limits(old(self)),
                self.values@.len() <= before.len(),
                self.values@ == before.skip(before.len() - self.values@.len()),
                self.values@.len() >= self.max_len || self.values@ == before,
            decreases self.values@.len(),
        {
            self.values.pop_front();
            assert(self.values@ =~= before.skip(before.len() - self.values@.len()));
        }
        assert(self.values@ =~= capped(before, self.max_len as nat));
        let ghost newest = self.values@;
        let mut more: bool = true;
        while more && self.values.len() > self.min_len
            invariant
                self.same_limits(old(self)),
                more ==> expired(
                    newest,
                    self.min_len as nat,
                    self.max_age as nat,
                    now as nat,
                ) == expired(self.values@, self.min_len as nat, self.max_age as nat, now as nat),
                !more ==> expired(
                    newest,
                    self.min_len as nat,
                    self.max_age as nat,
                    now as nat,
                ) == self.values@,
            decreases self.values@.len(), (if more { 1int } else { 0int }),
        {
            let ghost current = self.values@;
            let front: Sample = self.values[0];
            if now >= self.max_age && front.time < now - self.max_age {
                self.values.pop_front();
                assert(self.values@ =~= current.skip(1));
            } else {
                more = false;
            }
        }
        proof {
            lemma_flushed_window(
                before,
                self.min_len as nat,
                self.max_len as nat,
                self.max_age as nat,
                now as nat,
            );
            lemma_flushed_is_window(
                before,
                self.min_len as nat,
                self.max_len as nat,
                self.max_age as nat,
                now as nat,
            );
        }
    }

    /// Appends a sample taken at `now`, then flushes at `now`.
    ///
    /// Time does not run backwards: `now` is not before the newest sample.
    pub fn add(&mut self, now: u64, value: u64)
        requires
            ordered(old(self).samples()),
            old(self).samples().len() > 0 ==> old(self).samples().last().time <= now,
        ensures
            final(self).samples() == flushed(
                old(self).samples().push(Sample { time: now, value }),
                old(self).min_len(),
                old(self).max_len(),
                old(self).max_age(),
                now as nat,
            ),
            final(self).same_limits(old(self)),
            final(self).wf(),
            until(final(self).samples(), now as nat),
    {
        proof {
            lemma_ordered_push(self.samples(), Sample { time: now, value });
        }
        self.values.push_back(Sample { time: now, value });
        self.flush(now);
    }

    /// Files a sample that was taken at `now`: under `now`, or under the time
    /// of the newest sample where `now` lies before it. Then flushes at that
    /// time.
    pub fn record(&mut self, now: u64, value: u64)
        requires
            ordered(old(self).samples()),
        ensures
            final(self).samples() == flushed(
                old(self).samples().push(
                    Sample { time: filed_at(old(self).samples(), now), value },
                ),
                old(self).min_len(),
                old(self).max_len(),
                old(self).max_age(),
                filed_at(old(self).samples(), now) as nat,
            ),
            final(self).same_limits(old(self)),
            final(self).wf(),
    {
        let time: u64 = match self.newest_time() {
            Some(newest) => if newest > now {
                newest
            } else {
                now
            },
            None => now,
        };
        self.add(time, value);
    }

    /// The sum of the values that are held.
    pub fn sum(&self) -> (sum: u128)
        ensures
            sum == total(self.samples()),
    {
        let mut sum: u128 = 0;
        let mut i: usize = 0;
        let n: usize = self.values.len();
        while i < n
            invariant
                i <= n,
                n == self.values@.len(),
                sum == total(self.values@.take(i as int)),
            decreases n - i,
        {
            let sample: Sample = self.values[i];
            proof {
                let done = self.values@.take(i as int);
                lemma_total_bound(done);
                lemma_total_push(done, sample);
                assert(done.push(sample) =~= self.values@.take(i + 1));
                assert(i * 0xffff_ffff_ffff_ffff + 0xffff_ffff_ffff_ffff
                    <= 0xffff_ffff_ffff_ffff_ffff_ffff_ffff_ffff) by (nonlinear_arith)
                    requires
                        0 <= i < 0xffff_ffff_ffff_ffff,
                ;
            }
            sum = sum + sample.value as u128;
            i = i + 1;
        }
        assert(self.values@.take(n as int) =~= self.values@);
        sum
    }

    /// The time from the oldest sample to the newest; zero without samples.
    pub fn duration(&self) -> (d: u64)
        requires
            ordered(self.samples()),
        ensures
            d == span(self.samples()),
    {
        let n: usize = self.values.len();
        if n == 0 {
            0
        } else {
            let oldest: Sample = self.values[0];
            let newest: Sample = self.values[n - 1];
            newest.time - oldest.time
        }
    }

    /// The mean of the values: their sum over their number. `None` without
    /// samples.
    pub fn average(&self) -> (mean: Option<Ratio>)
        ensures
            self.samples().len() == 0 ==> mean is None,
            self.samples().len() > 0 ==> mean == Some(
                Ratio {
                    numerator: total(self.samples()) as u128,
                    denominator: self.samples().len() as u64,
                },
            ),
    {
        let n: usize = self.values.len();
        if n == 0 {
            None
        } else {
            Some(Ratio { numerator: self.sum(), denominator: n as u64 })
        }
    }

    /// The samples per unit of time: their number over the time from the
    /// oldest to the newest. `None` with fewer than two samples.
    pub fn rate(&self) -> (rate: Option<Ratio>)
        requires
            ordered(self.samples()),
        ensures
            self.samples().len() < 2 ==> rate is None,
            self.samples().len() >= 2 ==> rate == Some(
                Ratio {
                    numerator: self.samples().len() as u128,
                    denominator: span(self.samples()) as u64,
                },
            ),
    {
        let n: usize = self.values.len();
        if n < 2 {
            None
        } else {
            Some(Ratio { numerator: n as u128, denominator: self.duration() })
        }
    }

    /// The values per unit of time: their sum over the time from the oldest
    /// sample to the newest. `None` with fewer than two samples.
    pub fn sum_over_time(&self) -> (flow: Option<Ratio>)
        requires
            ordered(self.samples()),
        ensures
            self.samples().len() < 2 ==> flow is None,
            self.samples().len() >= 2 ==> flow == Some(
                Ratio {
                    numerator: total(self.samples()) as u128,
                    denominator: span(self.samples()) as u64,
                },
            ),
    {
        let n: usize = self.values.len();
        if n < 2 {
            None
        } else {
            Some(Ratio { numerator: self.sum(), denominator: self.duration() })
        }
    }
}

} // verus!
