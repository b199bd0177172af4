//! Frames per second, from the times of the last sixteen frames.

use vstd::prelude::*;

verus! {

/// How many frame times are kept.
pub const FRAMES: usize = 16;

/// The shortest span, in microseconds, that the rate is computed over.
pub const SHORTEST_SPAN: u64 = 1000;

/// Records and calculates frames per second.
///
/// `FpsRecorder` keeps the times of the last frames in a ring buffer,
/// in microseconds of a clock that does not run backwards.
#[derive(Debug)]
pub struct FpsRecorder {
    /// Current position in the ring buffer
    pub tail: usize,
    /// Ring buffer of frame times.
    pub recorded_frame: [u64; 16],
}

/// `later - earlier`, or zero where the clock stepped back.
pub open spec fn span(earlier: u64, later: u64) -> u64 {
    if later >= earlier {
        (later - earlier) as u64
    } else {
        0
    }
}

impl FpsRecorder {
    /// The write position lies in the buffer.
    pub open spec fn wf(&self) -> bool {
        self.tail < FRAMES
    }

    /// The slot that was written last.
    pub open spec fn newest(&self) -> int {
        if self.tail == 0 {
            FRAMES - 1
        } else {
            self.tail - 1
        }
    }

    /// Microseconds between the oldest and the newest frame kept.
    pub open spec fn elapsed(&self) -> u64 {
        span(self.recorded_frame@[self.tail as int], self.recorded_frame@[self.newest()])
    }

    /// Thousandths of a frame per second over the frames kept: fifteen
    /// intervals over the time they took, which counts as a millisecond
    /// at least.
    pub open spec fn rate(&self) -> u64 {
        let over = if self.elapsed() < SHORTEST_SPAN {
            SHORTEST_SPAN
        } else {
            self.elapsed()
        };
        (15_000_000_000int / over as int) as u64
    }

    /// Creates a new FPS recorder, with every slot at `now`.
    pub fn new(now: u64) -> (recorder: FpsRecorder)
        ensures
            recorder.tail == 0,
            forall|i: int| 0 <= i < FRAMES ==> recorder.recorded_frame@[i] == now,
            recorder.wf(),
    {
        FpsRecorder { tail: 0, recorded_frame: [now; 16] }
    }

    /// Records a new frame timestamp.
    pub fn record(&mut self, now: u64)
        requires
            old(self).wf(),
        ensures
            final(self).recorded_frame@ == old(self).recorded_frame@.update(
                old(self).tail as int,
                now,
            ),
            final(self).tail == (old(self).tail + 1) % 16,
            final(self).wf(),
            final(self).newest() == old(self).tail,
    {
        self.recorded_frame[self.tail] = now;
        self.tail = (self.tail + 1) % 16;
    }

    /// Microseconds between the oldest and the newest frame kept.
    pub fn elapsed_micros(&self) -> (micros: u64)
        requires
            self.wf(),
        ensures
            micros == self.elapsed(),
    {
        let newest_idx = if self.tail == 0 {
            15
        } else {
            self.tail - 1
        };
        self.recorded_frame[newest_idx].saturating_sub(self.recorded_frame[self.tail])
    }

    /// Calculates the current frames per second, in thousandths.
    pub fn fps(&self) -> (rate: u64)
        requires
            self.wf(),
        ensures
            rate == self.rate(),
            rate <= 15_000_000,
    {
        let elapsed = self.elapsed_micros();
        let over = if elapsed < SHORTEST_SPAN {
            SHORTEST_SPAN
        } else {
            elapsed
        };
        assert(15_000_000_000int / (over as int) <= 15_000_000) by (nonlinear_arith)
            requires
                over >= 1000,
        ;
        15_000_000_000 / over
    }
}

/// Initialize the FPS recorder at the time `now`.
pub fn init_fps_recorder(now: u64) -> (recorder: Option<FpsRecorder>)
    ensures
        recorder matches Some(r) && r.tail == 0 && r.wf() && forall|i: int|
            0 <= i < FRAMES ==> r.recorded_frame@[i] == now,
{
    Some(FpsRecorder::new(now))
}

/// Record a frame for FPS calculation: where a recorder is set up, the
/// frame is recorded and the new rate handed back for display.
pub fn record_frame(recorder: &mut Option<FpsRecorder>, now: u64) -> (shown: Option<u64>)
    requires
        match *old(recorder) {
            Some(r) => r.wf(),
            None => true,
        },
    ensures
        match *old(recorder) {
            Some(before) => {
                &&& *final(recorder) matches Some(after)
                &&& after.recorded_frame@ == before.recorded_frame@.update(
                    before.tail as int,
                    now,
                )
                &&& after.tail == (before.tail + 1) % 16
                &&& after.wf()
                &&& shown == Some(after.rate())
            },
            None => final(recorder).is_none() && shown.is_none(),
        },
{
    match recorder {
        Some(fps_recorder) => {
            fps_recorder.record(now);
            Some(fps_recorder.fps())
        },
        None => None,
    }
}

/// Get the current FPS value, in thousandths; zero without a recorder.
pub fn get_current_fps(recorder: &Option<FpsRecorder>) -> (rate: u64)
    requires
        recorder matches Some(r) ==> r.wf(),
    ensures
        rate == match recorder {
            Some(r) => r.rate(),
            None => 0,
        },
{
    match recorder {
        Some(fps_recorder) => fps_recorder.fps(),
        None => 0,
    }
}

} // verus!
