use std::collections::VecDeque;
use vstd::prelude::*;

verus! {

/// One frame as the tracker sees it: when it started, in microseconds of the
/// host's clock, and how long the CPU spent on it, when the host reports that.
#[derive(Clone, Copy, Debug, PartialEq, Eq, Structural)]
pub struct Sample {
    pub timestamp_micros: u64,
    pub cpu_usage_micros: Option<u64>,
}

/// A frame rate as an exact fraction: `frames` frame intervals took
/// `elapsed_micros` microseconds. No frames means a rate of zero.
#[derive(Clone, Copy, Debug, PartialEq, Eq, Structural)]
pub struct FrameRate {
    pub frames: u64,
    pub elapsed_micros: u64,
}

/// The last `n` elements of `s`, or all of `s` when it has no more than `n`.
pub open spec fn last_n(s: Seq<Sample>, n: nat) -> Seq<Sample> {
    if s.len() <= n {
        s
    } else {
        s.subrange(s.len() - n, s.len() as int)
    }
}

/// The rate over a window of samples: one interval fewer than there are
/// samples, over the time from the oldest to the newest. Fewer than two
/// samples give the zero rate; a clock that went backwards counts as no time.
pub open spec fn rate_of(s: Seq<Sample>) -> FrameRate {
    if s.len() < 2 {
        FrameRate { frames: 0, elapsed_micros: 0 }
    } else {
        let oldest = s[0].timestamp_micros;
        let newest = s.last().timestamp_micros;
        FrameRate {
            frames: (s.len() - 1) as u64,
            elapsed_micros: if newest >= oldest { (newest - oldest) as u64 } else { 0 },
        }
    }
}

/// A rolling window over the most recent frames, holding at most `capacity`
/// samples, oldest first.
pub struct FrameHistory {
    samples: VecDeque<Sample>,
    capacity: usize,
}

impl View for FrameHistory {
    type V = Seq<Sample>;

    closed spec fn view(&self) -> Seq<Sample> {
        self.samples@
    }
}

impl FrameHistory {
    /// Well-formed: no more samples than the capacity.
    pub closed spec fn wf(&self) -> bool {
        self.samples@.len() <= self.capacity
    }

    /// The most samples the window keeps.
    pub closed spec fn max_len(&self) -> nat {
        self.capacity as nat
    }

    /// An empty window that keeps up to `capacity` samples.
    pub fn new(capacity: usize) -> (h: Self)
        ensures
            h.wf(),
            h@ == Seq::<Sample>::empty(),
            h.max_len() == capacity,
    {
        FrameHistory { samples: VecDeque::new(), capacity }
    }

    /// The most samples the window keeps.
    pub fn capacity(&self) -> (n: usize)
        ensures
            n == self.max_len(),
    {
        self.capacity
    }

    /// How many samples the window holds now.
    pub fn len(&self) -> (n: usize)
        requires
            self.wf(),
        ensures
            n == self@.len(),
            n <= self.max_len(),
    {
        self.samples.len()
    }

    /// Appends a sample, dropping the oldest one when the window is full.
    pub fn record(&mut self, sample: Sample)
        requires
            old(self).wf(),
        ensures
            final(self).wf(),
            final(self)@ == last_n(old(self)@.push(sample), old(self).max_len()),
            final(self).max_len() == old(self).max_len(),
            final(self)@.len() <= final(self).max_len(),
    {
        if self.capacity == 0 {
            assert(last_n(self@.push(sample), 0) =~= self@);
            return ;
        }
        let ghost before = self@;
        if self.samples.len() == self.capacity {
            self.samples.pop_front();
        }
        self.samples.push_back(sample);
        assert(self@ =~= last_n(before.push(sample), self.capacity as nat));
    }

    /// The samples in the window, oldest first.
    pub fn samples(&self) -> (v: Vec<Sample>)
        ensures
            v@ == self@,
    {
        let mut v: Vec<Sample> = Vec::new();
        let mut i: usize = 0;
        while i < self.samples.len()
            invariant
                i <= self@.len(),
                v@ == self@.subrange(0, i as int),
            decreases self@.len() - i,
        {
            v.push(self.samples[i]);
            i = i + 1;
            assert(v@ =~= self@.subrange(0, i as int));
        }
        assert(v@ =~= self@);
        v
    }

    /// The frame rate over the window: one interval per sample after the
    /// first, over the time between the oldest and the newest sample.
    pub fn estimated_fps(&self) -> (r: FrameRate)
        ensures
            r == rate_of(self@),
    {
        let n = self.samples.len();
        if n < 2 {
            return FrameRate { frames: 0, elapsed_micros: 0 };
        }
        let oldest = self.samples[0].timestamp_micros;
        let newest = self.samples[n - 1].timestamp_micros;
        let elapsed = if newest >= oldest { newest - oldest } else { 0 };
        FrameRate { frames: (n - 1) as u64, elapsed_micros: elapsed }
    }
}

/// The window after recording each of `s` in turn, starting from an empty
/// window of capacity `n`.
pub open spec fn replay(s: Seq<Sample>, n: nat) -> Seq<Sample>
    decreases s.len(),
{
    if s.len() == 0 {
        s
    } else {
        last_n(replay(s.drop_last(), n).push(s.last()), n)
    }
}

/// However many samples are recorded into an empty window, it never holds
/// more than its capacity, and it holds exactly the most recent ones, in the
/// order they were recorded.
pub proof fn lemma_replay_keeps_last(s: Seq<Sample>, n: nat)
    ensures
        replay(s, n) == last_n(s, n),
        replay(s, n).len() <= n,
    decreases s.len(),
{
    if s.len() > 0 {
        lemma_replay_keeps_last(s.drop_last(), n);
        assert(last_n(last_n(s.drop_last(), n).push(s.last()), n) =~= last_n(s, n));
    }
}

/// Two samples, the second later than the first, give one frame over the
/// time between them.
pub proof fn lemma_two_samples_rate(a: Sample, b: Sample)
    requires
        b.timestamp_micros > a.timestamp_micros,
    ensures
        rate_of(seq![a, b]) == (FrameRate {
            frames: 1,
            elapsed_micros: (b.timestamp_micros - a.timestamp_micros) as u64,
        }),
{
}

/// An empty or single-sample window has the zero rate.
pub proof fn lemma_short_window_rate(s: Seq<Sample>)
    requires
        s.len() < 2,
    ensures
        rate_of(s).frames == 0,
        rate_of(s).elapsed_micros == 0,
{
}

} // verus!
