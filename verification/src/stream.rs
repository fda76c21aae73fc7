//! Model of the emission loop: a stream of epoch-nanosecond values, one per
//! loop iteration, published in sample order. The stream keeps the full
//! sequence of published values as ghost history, together with the value
//! published last, so that the ordering of everything the loop has sent can
//! be stated and proved. The host's pub/sub transport, the task spawn and
//! the per-iteration scheduler yield stay outside this crate; the loop hands
//! each fresh wall-clock reading in as plain values and sends the returned
//! nanosecond value out unchanged.

use crate::clock::epoch_nanos;
use crate::clock::lemma_nanos_fit_u128;
use crate::clock::lemma_nanos_strictly_monotone;
use crate::clock::nanos_since_epoch;
use crate::clock::reading_wf;
use vstd::prelude::*;

verus! {

/// A sequence of published values is strictly increasing when every later
/// value is strictly larger than every earlier one.
pub open spec fn strictly_increasing(s: Seq<u128>) -> bool {
    forall|i: int, j: int| 0 <= i < j < s.len() ==> s[i] < s[j]
}

/// One clock reading is strictly earlier than another: fewer whole seconds,
/// or the same second with a smaller sub-second remainder.
pub open spec fn reading_earlier(a: (u64, u32), b: (u64, u32)) -> bool {
    a.0 < b.0 || (a.0 == b.0 && a.1 < b.1)
}

/// A run of clock readings in which the wall clock never runs backwards or
/// stalls: each reading taken later is strictly later.
pub open spec fn readings_strictly_later(samples: Seq<(u64, u32)>) -> bool {
    forall|i: int, j: int| 0 <= i < j < samples.len() ==> reading_earlier(samples[i], samples[j])
}

/// The epoch-nanosecond values that the loop publishes for a run of clock
/// readings, in sample order.
pub open spec fn published_of(samples: Seq<(u64, u32)>) -> Seq<u128> {
    samples.map(|i: int, s: (u64, u32)| nanos_since_epoch(s.0 as nat, s.1 as nat) as u128)
}

/// Monotonicity of the published stream: over any window of a run whose
/// clock readings are strictly later one after the other — no backward
/// clock adjustment — the published nanosecond values form a strictly
/// increasing sequence.
pub proof fn lemma_published_strictly_increasing(samples: Seq<(u64, u32)>)
    requires
        forall|i: int| 0 <= i < samples.len() ==> reading_wf(#[trigger] samples[i].0, samples[i].1),
        readings_strictly_later(samples),
    ensures
        strictly_increasing(published_of(samples)),
{
    let published = published_of(samples);
    assert forall|i: int, j: int| 0 <= i < j < published.len() implies published[i] < published[j] by {
        assert(reading_earlier(samples[i], samples[j]));
        lemma_nanos_fit_u128(samples[i].0, samples[i].1);
        lemma_nanos_fit_u128(samples[j].0, samples[j].1);
        lemma_nanos_strictly_monotone(samples[i].0, samples[i].1, samples[j].0, samples[j].1);
    }
}

/// Pushing a value strictly above everything published so far keeps the
/// stream strictly increasing.
pub proof fn lemma_push_preserves_increasing(s: Seq<u128>, v: u128)
    requires
        strictly_increasing(s),
        s.len() > 0 ==> s.last() < v,
    ensures
        strictly_increasing(s.push(v)),
{
    assert forall|i: int, j: int| 0 <= i < j < s.push(v).len() implies s.push(v)[i] < s.push(v)[j] by {
        if j < s.len() {
            assert(s.push(v)[i] == s[i] && s.push(v)[j] == s[j]);
        } else {
            assert(s.push(v)[j] == v);
            if i < s.len() - 1 {
                assert(s[i] < s.last());
            }
        }
    }
}

/// The emission stream: everything the loop has published so far, as ghost
/// history, plus the value published last.
pub struct TimestampStream {
    /// The value published most recently, `None` while nothing has been
    /// published.
    last: Option<u128>,
    /// Every value published so far, in publication order.
    history: Ghost<Seq<u128>>,
}

impl TimestampStream {
    /// The values published so far, in publication order.
    pub closed spec fn emitted(self) -> Seq<u128> {
        self.history@
    }

    /// The value published most recently, `None` while nothing has been
    /// published.
    pub closed spec fn last_published(self) -> Option<u128> {
        self.last
    }

    /// Well-formedness: the value published last is exactly the final
    /// element of the history, absent only while the history is empty.
    pub open spec fn wf(self) -> bool {
        match self.last_published() {
            None => self.emitted().len() == 0,
            Some(v) => self.emitted().len() > 0 && self.emitted().last() == v,
        }
    }

    /// A fresh stream, as it stands when the loop is spawned: nothing
    /// published yet.
    pub fn new() -> (s: Self)
        ensures
            s.wf(),
            s.emitted() == Seq::<u128>::empty(),
            s.last_published() is None,
    {
        TimestampStream { last: None, history: Ghost(Seq::empty()) }
    }

    /// Publishes the epoch-nanosecond value of one wall-clock reading: the
    /// converted value is appended to the history and handed back for the
    /// host transport to send. When the reading is strictly later than the
    /// last one published, a strictly increasing stream stays strictly
    /// increasing.
    pub fn publish_next(&mut self, secs: u64, subsec_nanos: u32) -> (r: u128)
        requires
            old(self).wf(),
            reading_wf(secs, subsec_nanos),
        ensures
            final(self).wf(),
            r == nanos_since_epoch(secs as nat, subsec_nanos as nat),
            final(self).emitted() == old(self).emitted().push(r),
            final(self).last_published() == Some(r),
            strictly_increasing(old(self).emitted()) && (old(self).last_published() matches Some(p) ==> p < r)
                ==> strictly_increasing(final(self).emitted()),
    {
        let value = epoch_nanos(secs, subsec_nanos);
        self.last = Some(value);
        self.history = Ghost(self.history@.push(value));
        proof {
            if strictly_increasing(old(self).history@) && (old(self).last matches Some(p) ==> p
                < value) {
                lemma_push_preserves_increasing(old(self).history@, value);
            }
        }
        value
    }

    /// One iteration of the emission loop, as a decision on the clock
    /// reading the host sampled: a reading since the Unix epoch is
    /// converted and published; no reading — the platform clock stands
    /// before the epoch, a fatal host fault — publishes nothing, and the
    /// caller is to abort the loop.
    pub fn step(&mut self, reading: Option<(u64, u32)>) -> (r: Option<u128>)
        requires
            old(self).wf(),
            reading matches Some(s) ==> reading_wf(s.0, s.1),
        ensures
            final(self).wf(),
            reading is None ==> r is None && *final(self) == *old(self),
            reading matches Some(s) ==> (r matches Some(v) && v == nanos_since_epoch(
                s.0 as nat,
                s.1 as nat,
            ) && final(self).emitted() == old(self).emitted().push(v)
                && final(self).last_published() == Some(v)),
    {
        match reading {
            None => None,
            Some((secs, subsec_nanos)) => Some(self.publish_next(secs, subsec_nanos)),
        }
    }

    /// The value published most recently, `None` while nothing has been
    /// published.
    pub fn last_emitted(&self) -> (r: Option<u128>)
        ensures
            r == self.last_published(),
            self.wf() ==> (r is None <==> self.emitted().len() == 0),
    {
        self.last
    }
}

} // verus!
