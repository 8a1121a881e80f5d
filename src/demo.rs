use crate::frame_history::{rate_of, FrameHistory, FrameRate, Sample};
use vstd::prelude::*;

verus! {

/// How many recent frames the frame-rate estimate looks back over.
pub const HISTORY_LEN: usize = 300;

/// How many boxes the stress panel paints each frame.
pub const BOX_COUNT: u32 = 100000;

/// The counter after one click: one more, wrapping at the top of `i32`.
pub open spec fn increment(c: i32) -> i32 {
    if c == i32::MAX {
        i32::MIN
    } else {
        (c + 1) as i32
    }
}

/// The counter after `k` clicks, starting from zero.
pub open spec fn count_after(k: nat) -> i32
    decreases k,
{
    if k == 0 {
        0
    } else {
        increment(count_after((k - 1) as nat))
    }
}

/// Starting from zero, `k` clicks leave the counter at exactly `k`, for as
/// many clicks as an `i32` can count.
pub proof fn lemma_count_after_clicks(k: nat)
    requires
        k <= i32::MAX,
    ensures
        count_after(k) == k,
    decreases k,
{
    if k > 0 {
        lemma_count_after_clicks((k - 1) as nat);
    }
}

/// The state behind the demo window: the click counter and the frame timing.
pub struct DemoApp {
    count: i32,
    frame_history: FrameHistory,
}

impl DemoApp {
    pub closed spec fn count_spec(&self) -> i32 {
        self.count
    }

    pub closed spec fn history(&self) -> Seq<Sample> {
        self.frame_history@
    }

    pub closed spec fn wf(&self) -> bool {
        &&& self.frame_history.wf()
        &&& self.frame_history.max_len() == HISTORY_LEN
    }

    /// A fresh window: counter at zero, no frames seen.
    pub fn new() -> (d: Self)
        ensures
            d.wf(),
            d.count_spec() == 0,
            d.history() == Seq::<Sample>::empty(),
    {
        DemoApp { count: 0, frame_history: FrameHistory::new(HISTORY_LEN) }
    }

    /// The counter's value.
    pub fn count(&self) -> (c: i32)
        ensures
            c == self.count_spec(),
    {
        self.count
    }

    /// Records the frame that starts at `now_micros`, with the CPU time the
    /// host reports for it.
    pub fn on_frame(&mut self, now_micros: u64, cpu_usage_micros: Option<u64>)
        requires
            old(self).wf(),
        ensures
            final(self).wf(),
            final(self).count_spec() == old(self).count_spec(),
            final(self).history() == crate::frame_history::last_n(
                old(self).history().push(
                    Sample { timestamp_micros: now_micros, cpu_usage_micros },
                ),
                HISTORY_LEN as nat,
            ),
    {
        self.frame_history.record(Sample { timestamp_micros: now_micros, cpu_usage_micros });
    }

    /// One click on the counter's button.
    pub fn on_increment_clicked(&mut self)
        requires
            old(self).wf(),
        ensures
            final(self).wf(),
            final(self).count_spec() == increment(old(self).count_spec()),
            final(self).history() == old(self).history(),
    {
        self.count = self.count.wrapping_add(1);
    }

    /// The frame rate over the recent frames.
    pub fn fps(&self) -> (r: FrameRate)
        ensures
            r == rate_of(self.history()),
    {
        self.frame_history.estimated_fps()
    }
}

impl Default for DemoApp {
    fn default() -> (d: Self)
        ensures
            d.wf(),
            d.count_spec() == 0,
            d.history() == Seq::<Sample>::empty(),
    {
        DemoApp::new()
    }
}

} // verus!
