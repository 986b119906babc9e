//! A ring buffer of audio samples addressed by an absolute sample counter.
//!
//! Samples are stored as their 32-bit patterns. The absolute counter (total
//! samples ever written) lets a reader ask for `[start, end)` regardless of
//! wrapping; a request for samples not produced yet, or already overwritten,
//! is refused rather than answered with the wrong audio.

use vstd::prelude::*;

verus! {

/// Why a range could not be read.
#[derive(Debug, Clone, Copy, PartialEq, Eq, Structural)]
pub enum RangeError {
    /// The range start is after the range end.
    Backwards,
    /// Samples not yet produced.
    NotYetProduced { requested_end: u64, written: u64 },
    /// Samples already overwritten.
    Overwritten { requested_start: u64, oldest: u64 },
}

/// The oldest absolute index still resident when `written` samples went
/// through a ring of `cap` slots.
pub open spec fn oldest_of(written: nat, cap: nat) -> nat {
    if written >= cap { (written - cap) as nat } else { 0 }
}

/// The answer to a request for `[start, end)` after `written` samples went
/// through a ring of `cap` slots: `Ok` when every sample is resident.
pub open spec fn range_check_of(start: nat, end: nat, written: nat, cap: nat) -> Result<(), RangeError> {
    if start > end {
        Err(RangeError::Backwards)
    } else if end > written {
        Err(RangeError::NotYetProduced { requested_end: end as u64, written: written as u64 })
    } else if start < oldest_of(written, cap) {
        Err(RangeError::Overwritten {
            requested_start: start as u64,
            oldest: oldest_of(written, cap) as u64,
        })
    } else {
        Ok(())
    }
}

/// The oldest absolute index still resident after `written` samples went
/// through a ring of `cap` slots.
pub fn oldest_index(written: u64, cap: u64) -> (n: u64)
    ensures
        n == oldest_of(written as nat, cap as nat),
{
    written.saturating_sub(cap)
}

/// Decide whether `[start, end)` can be read after `written` samples went
/// through a ring of `cap` slots.
pub fn check_range(start: u64, end: u64, written: u64, cap: u64) -> (r: Result<(), RangeError>)
    ensures
        r == range_check_of(start as nat, end as nat, written as nat, cap as nat),
{
    if start > end {
        return Err(RangeError::Backwards);
    }
    if end > written {
        return Err(RangeError::NotYetProduced { requested_end: end, written });
    }
    let oldest = written.saturating_sub(cap);
    if start < oldest {
        return Err(RangeError::Overwritten { requested_start: start, oldest });
    }
    Ok(())
}

/// The slot absolute sample `abs` lives in, in a ring of `cap` slots.
pub fn slot_of(abs: u64, cap: usize) -> (i: usize)
    requires
        cap > 0,
    ensures
        i == abs % (cap as u64),
        i < cap,
{
    (abs % (cap as u64)) as usize
}

/// The whole frames in `len` interleaved samples of `channels` channels: a
/// trailing partial frame does not count.
pub fn frames_in(len: usize, channels: usize) -> (n: usize)
    requires
        channels > 0,
    ensures
        n == len / channels,
{
    len / channels
}

/// The counter's growth over a sequence of pushes, each given as its sample
/// count and channel count (1 for a mono push): every whole frame adds one.
pub open spec fn counted(pushes: Seq<(nat, nat)>) -> nat
    decreases pushes.len(),
{
    if pushes.len() == 0 {
        0
    } else {
        counted(pushes.drop_last()) + pushes.last().0 / pushes.last().1
    }
}

/// Two indices closer than `m` apart land in different slots.
proof fn lemma_distinct_slots(a: int, b: int, m: int)
    requires
        0 <= a < b,
        b - a < m,
    ensures
        a % m != b % m,
{
    vstd::arithmetic::div_mod::lemma_fundamental_div_mod(a, m);
    vstd::arithmetic::div_mod::lemma_fundamental_div_mod(b, m);
    if a % m == b % m {
        assert(m * (b / m) - m * (a / m) == b - a);
        vstd::arithmetic::mul::lemma_mul_is_distributive_sub(m, b / m, a / m);
        if b / m - a / m >= 1 {
            vstd::arithmetic::mul::lemma_mul_inequality(1, b / m - a / m, m);
        } else {
            vstd::arithmetic::mul::lemma_mul_inequality(b / m - a / m, 0, m);
        }
    }
}

/// The ring. `log` is every sample ever pushed, in order; `history` is
/// every push, as its sample count and channel count (1 for mono).
pub struct Ring {
    data: Vec<u32>,
    written: u64,
    log: Ghost<Seq<u32>>,
    history: Ghost<Seq<(nat, nat)>>,
}

impl Ring {
    /// Every sample ever pushed, oldest first.
    pub closed spec fn log(&self) -> Seq<u32> {
        self.log@
    }

    /// Every push so far, oldest first: its sample count and its channel
    /// count (1 for a mono push).
    pub closed spec fn history(&self) -> Seq<(nat, nat)> {
        self.history@
    }

    /// The number of slots.
    pub closed spec fn capacity(&self) -> nat {
        self.data@.len()
    }

    /// The storage holds the most recent `capacity` samples of the log, each
    /// at its index modulo the capacity.
    pub closed spec fn wf(&self) -> bool {
        &&& self.data@.len() > 0
        &&& self.log@.len() == self.written
        &&& self.log@.len() == counted(self.history@)
        &&& forall|i: int| 0 <= i < self.history@.len() ==> (#[trigger] self.history@[i]).1 > 0
        &&& forall|abs: int|
            oldest_of(self.written as nat, self.data@.len()) <= abs < self.written ==> #[trigger] self.data@[abs
                % (self.data@.len() as int)] == self.log@[abs]
    }

    /// Total samples ever produced (the absolute counter).
    pub fn total_written(&self) -> (n: u64)
        requires
            self.wf(),
        ensures
            n == self.log().len(),
            n == counted(self.history()),
    {
        self.written
    }

    /// The oldest absolute index still present.
    pub fn oldest_available(&self) -> (n: u64)
        requires
            self.wf(),
        ensures
            n == oldest_of(self.log().len(), self.capacity()),
    {
        oldest_index(self.written, self.data.len() as u64)
    }

    /// Push samples, overwriting the oldest once the ring is full.
    pub fn push(&mut self, samples: &[u32])
        requires
            old(self).wf(),
            old(self).log().len() + samples@.len() <= u64::MAX,
        ensures
            final(self).wf(),
            final(self).log() == old(self).log() + samples@,
            final(self).history() == old(self).history().push((samples@.len(), 1nat)),
            final(self).capacity() == old(self).capacity(),
    {
        let cap_slots = self.data.len();
        let cap = cap_slots as u64;
        let start = self.written;
        let n = samples.len();
        let ghost old_log = self.log@;
        let mut i: usize = 0;
        while i < n
            invariant
                0 <= i <= n,
                n == samples@.len(),
                cap == self.data@.len(),
                cap_slots == self.data@.len(),
                cap <= usize::MAX,
                cap > 0,
                start == self.written,
                start == old_log.len(),
                self.history@ == old(self).history@,
                old_log.len() == counted(old(self).history@),
                forall|j: int| 0 <= j < self.history@.len() ==> (#[trigger] self.history@[j]).1 > 0,
                start + n <= u64::MAX,
                self.log@ == old_log + samples@.subrange(0, i as int),
                forall|abs: int|
                    oldest_of((start + i) as nat, cap as nat) <= abs < start + i ==> #[trigger] self.data@[abs
                        % (cap as int)] == self.log@[abs],
            decreases n - i,
        {
            let abs = start + i as u64;
            let idx = slot_of(abs, cap_slots);
            let ghost before = self.data@;
            let ghost log_before = self.log@;
            self.data.set(idx, samples[i]);
            proof {
                assert(idx as int == (abs as int) % (cap as int));
                let new_log = old_log + samples@.subrange(0, i + 1);
                assert(new_log == self.log@.push(samples@[i as int]));
                self.log@ = new_log;
                assert forall|a: int|
                    oldest_of((start + i + 1) as nat, cap as nat) <= a < start + i + 1 implies #[trigger] self.data@[a
                        % (cap as int)] == self.log@[a] by {
                    if a < abs {
                        lemma_distinct_slots(a, abs as int, cap as int);
                        assert(before[a % (cap as int)] == log_before[a]);
                        assert(self.log@[a] == log_before[a]);
                    } else {
                        assert(a == abs);
                        assert(self.log@[a] == samples@[i as int]);
                    }
                }
            }
            i = i + 1;
        }
        proof {
            assert(samples@.subrange(0, n as int) == samples@);
            let h = self.history@.push((n as nat, 1nat));
            assert(h.drop_last() =~= self.history@);
            assert((n as nat) / 1nat == n as nat);
            self.history@ = h;
        }
        self.written = start + n as u64;
    }

    /// Push `len` interleaved samples of `channels` channels, one mono
    /// sample per whole frame: frame `k`'s sample is what `mix` gives for
    /// it (the caller's downmix). A trailing partial frame is dropped.
    pub fn push_interleaved<F: Fn(usize) -> u32>(&mut self, len: usize, channels: usize, mix: F)
        requires
            old(self).wf(),
            channels > 0,
            old(self).log().len() + len / channels <= u64::MAX,
            forall|k: usize| k < len / channels ==> call_requires(mix, (k,)),
        ensures
            final(self).wf(),
            final(self).capacity() == old(self).capacity(),
            final(self).log().len() == old(self).log().len() + len / channels,
            final(self).log().subrange(0, old(self).log().len() as int) == old(self).log(),
            final(self).history() == old(self).history().push((len as nat, channels as nat)),
            forall|k: int|
                0 <= k < len / channels ==> call_ensures(
                    mix,
                    (k as usize,),
                    #[trigger] final(self).log()[old(self).log().len() + k],
                ),
    {
        let frames = frames_in(len, channels);
        let mut mono: Vec<u32> = Vec::new();
        let mut k: usize = 0;
        while k < frames
            invariant
                k <= frames,
                frames == len / channels,
                mono@.len() == k,
                forall|j: usize| j < len / channels ==> call_requires(mix, (j,)),
                forall|j: int| 0 <= j < k ==> call_ensures(mix, (j as usize,), #[trigger] mono@[j]),
            decreases frames - k,
        {
            let v = mix(k);
            mono.push(v);
            k = k + 1;
        }
        let ghost before = self.log();
        let ghost before_history = self.history@;
        self.push(mono.as_slice());
        proof {
            let h = before_history.push((len as nat, channels as nat));
            assert(h.drop_last() =~= before_history);
            self.history@ = h;
            assert(self.log().subrange(0, before.len() as int) =~= before);
            assert forall|j: int| 0 <= j < len / channels implies call_ensures(
                mix,
                (j as usize,),
                #[trigger] self.log()[before.len() + j],
            ) by {
                assert(self.log()[before.len() + j] == mono@[j]);
            }
        }
    }

    /// Copy samples `[start_abs, end_abs)`, or say why they are not available.
    pub fn read_range(&self, start_abs: u64, end_abs: u64) -> (r: Result<Vec<u32>, RangeError>)
        requires
            self.wf(),
        ensures
            match range_check_of(start_abs as nat, end_abs as nat, self.log().len(), self.capacity()) {
                Err(e) => r == Err::<Vec<u32>, RangeError>(e),
                Ok(_) => r matches Ok(v) && v@ == self.log().subrange(start_abs as int, end_abs as int),
            },
    {
        let cap_slots = self.data.len();
        let cap = cap_slots as u64;
        match check_range(start_abs, end_abs, self.written, cap) {
            Err(e) => return Err(e),
            Ok(()) => {},
        }
        let mut out: Vec<u32> = Vec::new();
        let mut abs = start_abs;
        while abs < end_abs
            invariant
                start_abs <= abs <= end_abs,
                end_abs <= self.written,
                oldest_of(self.written as nat, cap as nat) <= start_abs,
                cap == self.data@.len(),
                cap_slots == self.data@.len(),
                cap <= usize::MAX,
                self.wf(),
                out@ == self.log@.subrange(start_abs as int, abs as int),
            decreases end_abs - abs,
        {
            let idx = slot_of(abs, cap_slots);
            out.push(self.data[idx]);
            proof {
                assert(idx as int == (abs as int) % (cap as int));
                assert(self.data@[(abs as int) % (cap as int)] == self.log@[abs as int]);
                assert(out@ == self.log@.subrange(start_abs as int, abs + 1));
            }
            abs = abs + 1;
        }
        Ok(out)
    }
}

/// Create a ring holding `capacity` samples, all storage allocated up front.
pub fn ring(capacity: usize) -> (r: Ring)
    requires
        capacity > 0,
    ensures
        r.wf(),
        r.log() == Seq::<u32>::empty(),
        r.history() == Seq::<(nat, nat)>::empty(),
        r.capacity() == capacity,
{
    let mut data: Vec<u32> = Vec::new();
    let mut i: usize = 0;
    while i < capacity
        invariant
            i <= capacity,
            data@.len() == i,
        decreases capacity - i,
    {
        data.push(0);
        i = i + 1;
    }
    Ring { data, written: 0, log: Ghost(Seq::empty()), history: Ghost(Seq::empty()) }
}

/// The counter of a ring is its pushes: after any mix of mono pushes and
/// interleaved pushes, in any order and at any capacity, the samples ever
/// written are each mono push's samples plus each interleaved push's whole
/// frames, as `counted` sums them; and a ring that goes on to further
/// pushes never reads less.
pub proof fn ring_counter_is_its_pushes(r: Ring, later: Seq<(nat, nat)>)
    requires
        r.wf(),
        forall|i: int| 0 <= i < later.len() ==> (#[trigger] later[i]).1 > 0,
    ensures
        r.log().len() == counted(r.history()),
        counted(r.history() + later) >= r.log().len(),
{
    counter_counts_whole_frames(r.history(), later);
}

/// The most recent `capacity` samples are always readable: any range that
/// ends at or before the counter and reaches back no further than one
/// capacity from it is answered with the samples pushed at those indices.
pub proof fn recent_samples_are_readable(written: nat, cap: nat, start: nat, end: nat)
    requires
        start <= end <= written,
        written - start <= cap,
    ensures
        range_check_of(start, end, written, cap) == Ok::<(), RangeError>(()),
{
}

/// What a read gives back of a write: right after pushing `pushed` onto a
/// ring whose log was `before`, reading exactly the pushed range succeeds
/// and returns the pushed samples, as long as they fit in the ring.
pub proof fn pushed_samples_read_back(before: Seq<u32>, pushed: Seq<u32>, cap: nat)
    requires
        cap > 0,
        pushed.len() <= cap,
    ensures
        range_check_of(before.len(), before.len() + pushed.len(), (before + pushed).len(), cap)
            == Ok::<(), RangeError>(()),
        (before + pushed).subrange(before.len() as int, (before + pushed).len() as int) == pushed,
{
    assert((before + pushed).subrange(before.len() as int, (before + pushed).len() as int) =~= pushed);
}

/// What the counter reads after any mix of pushes: it starts at the samples
/// already written, each mono push adds its samples, each interleaved push
/// adds its whole frames (a trailing partial frame is not counted), and the
/// ring's capacity plays no part. It never goes down: a longer run of
/// pushes reads at least as much as any run it extends.
pub proof fn counter_counts_whole_frames(pushes: Seq<(nat, nat)>, more: Seq<(nat, nat)>)
    requires
        forall|i: int| 0 <= i < pushes.len() ==> (#[trigger] pushes[i]).1 > 0,
        forall|i: int| 0 <= i < more.len() ==> (#[trigger] more[i]).1 > 0,
    ensures
        counted(pushes + more) == counted(pushes) + counted(more),
        counted(pushes + more) >= counted(pushes),
        pushes.len() > 0 && pushes.last().1 == 1 ==> counted(pushes) == counted(pushes.drop_last())
            + pushes.last().0,
    decreases more.len(),
{
    if more.len() > 0 {
        let shorter = more.drop_last();
        counter_counts_whole_frames(pushes, shorter);
        assert((pushes + more).drop_last() =~= pushes + shorter);
        assert((pushes + more).last() == more.last());
    } else {
        assert(pushes + more =~= pushes);
    }
}

} // verus!
