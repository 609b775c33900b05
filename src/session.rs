//! The life cycle of a recording session (start, stop, end of capture) and
//! the per-poll decisions of the capture loop.
use vstd::prelude::*;
use crate::channel::FrameEnvelope;
use crate::differ::{accepts, FrameDiffer};
use crate::emitter::{delivery_step_of, elapsed_to_pts_ms, DeliveryStep, NANOS_PER_MILLI};
use crate::pacer::{frame_period_nanos, pacing_sleep_nanos, period_of, residual};

verus! {

/// Dimensions of an enumerated display, in pixels.
#[derive(Clone, Copy, Debug, PartialEq, Eq, Structural)]
pub struct DisplayInfo {
    pub width: u32,
    pub height: u32,
}

/// Why a recording could not start.
#[derive(Clone, Copy, Debug, PartialEq, Eq, Structural)]
pub enum StartError {
    /// The host reports no display.
    NoDisplayFound,
    /// The capture handle for the selected display could not be opened.
    CaptureInitFailed,
    /// A session is still capturing; a second one is refused.
    AlreadyCapturing,
}

/// What one poll of the display produced.
pub enum PollOutcome {
    /// A raw pixel buffer.
    Frame(Vec<u8>),
    /// No new frame is ready yet.
    Pending,
    /// The capture source failed for good.
    Fatal,
}

/// What the capture loop does with the result of a poll.
pub enum CaptureAction {
    /// Put this envelope on the frame queue.
    Enqueue(FrameEnvelope),
    /// Nothing to hand on; go on polling.
    Skip,
    /// End the capture loop.
    Stop,
}

/// The flags shared by the commands and the capture side, and the settings
/// of the sessions to come.
pub struct Recorder {
    stop: bool,
    capturing: bool,
    frame_rate: u64,
    threshold: usize,
}

impl Recorder {
    pub closed spec fn stop_requested(&self) -> bool {
        self.stop
    }

    pub closed spec fn capturing_spec(&self) -> bool {
        self.capturing
    }

    pub closed spec fn frame_rate_spec(&self) -> nat {
        self.frame_rate as nat
    }

    pub closed spec fn threshold_spec(&self) -> nat {
        self.threshold as nat
    }

    pub open spec fn wf(&self) -> bool {
        self.frame_rate_spec() > 0
    }

    /// An idle recorder for sessions at `frame_rate` frames per second that
    /// suppress frames with at most `threshold` changed bytes.
    pub fn new(frame_rate: u64, threshold: usize) -> (r: Recorder)
        requires
            frame_rate > 0,
        ensures
            r.wf(),
            !r.stop_requested(),
            !r.capturing_spec(),
            r.frame_rate_spec() == frame_rate as nat,
            r.threshold_spec() == threshold as nat,
    {
        Recorder { stop: false, capturing: false, frame_rate, threshold }
    }

    pub fn is_capturing(&self) -> (r: bool)
        ensures
            r == self.capturing_spec(),
    {
        self.capturing
    }

    /// The capture loop may begin another poll only while no stop is requested.
    pub open spec fn polls_permitted(&self) -> bool {
        !self.stop_requested()
    }

    /// Whether the capture loop may begin another poll.
    pub fn should_poll(&self) -> (r: bool)
        ensures
            r == self.polls_permitted(),
    {
        !self.stop
    }

    /// Starts a session on the first enumerated display, or refuses: while a
    /// session is capturing, and when there is no display. A refusal changes
    /// nothing. On success the returned loop state is handed to the capture
    /// thread.
    pub fn start_recording(&mut self, displays: &Vec<DisplayInfo>) -> (r: Result<CaptureLoop, StartError>)
        requires
            old(self).wf(),
        ensures
            final(self).wf(),
            old(self).capturing_spec() ==> r == Err::<CaptureLoop, StartError>(StartError::AlreadyCapturing)
                && *final(self) == *old(self),
            !old(self).capturing_spec() && displays@.len() == 0 ==> r == Err::<CaptureLoop, StartError>(
                StartError::NoDisplayFound,
            ) && *final(self) == *old(self),
            !old(self).capturing_spec() && displays@.len() > 0 ==> r is Ok && !final(self).stop_requested()
                && final(self).capturing_spec() && final(self).frame_rate_spec() == old(self).frame_rate_spec()
                && final(self).threshold_spec() == old(self).threshold_spec() && r->Ok_0.fresh_for(
                displays@[0],
                old(self).frame_rate_spec(),
                old(self).threshold_spec(),
            ),
    {
        if self.capturing {
            return Err(StartError::AlreadyCapturing);
        }
        if displays.len() == 0 {
            return Err(StartError::NoDisplayFound);
        }
        let display = displays[0];
        self.stop = false;
        self.capturing = true;
        Ok(
            CaptureLoop {
                differ: FrameDiffer::new(self.threshold),
                width: display.width,
                height: display.height,
                period_nanos: frame_period_nanos(self.frame_rate),
            },
        )
    }

    /// Asks the running session to halt; returns at once.
    pub fn stop_recording(&mut self)
        ensures
            final(self).stop_requested(),
            final(self).capturing_spec() == old(self).capturing_spec(),
            final(self).frame_rate_spec() == old(self).frame_rate_spec(),
            final(self).threshold_spec() == old(self).threshold_spec(),
    {
        self.stop = true;
    }

    /// Records that the capture side has exited (or never got going), so
    /// that a new session may start.
    pub fn capture_ended(&mut self)
        ensures
            !final(self).capturing_spec(),
            final(self).stop_requested() == old(self).stop_requested(),
            final(self).frame_rate_spec() == old(self).frame_rate_spec(),
            final(self).threshold_spec() == old(self).threshold_spec(),
    {
        self.capturing = false;
    }
}

/// The capture side's state for one session.
pub struct CaptureLoop {
    pub differ: FrameDiffer,
    pub width: u32,
    pub height: u32,
    pub period_nanos: u64,
}

impl CaptureLoop {
    /// The state a session starts from on `display`.
    pub open spec fn fresh_for(&self, display: DisplayInfo, frame_rate: nat, threshold: nat) -> bool {
        &&& self.differ.last_accepted() == None::<Seq<u8>>
        &&& self.differ.threshold_spec() == threshold
        &&& self.width == display.width
        &&& self.height == display.height
        &&& self.period_nanos as nat == period_of(frame_rate)
    }

    /// Handles one poll that began `elapsed_nanos` after the session started.
    /// A frame that passes change detection moves into an envelope stamped
    /// with the elapsed whole milliseconds.
    pub fn on_poll(&mut self, outcome: PollOutcome, elapsed_nanos: u64) -> (action: CaptureAction)
        ensures
            final(self).width == old(self).width,
            final(self).height == old(self).height,
            final(self).period_nanos == old(self).period_nanos,
            final(self).differ.threshold_spec() == old(self).differ.threshold_spec(),
            match outcome {
                PollOutcome::Frame(data) => {
                    let taken = accepts(
                        old(self).differ.last_accepted(),
                        data@,
                        old(self).differ.threshold_spec(),
                    );
                    &&& final(self).differ.last_accepted() == (if taken {
                        Some(data@)
                    } else {
                        old(self).differ.last_accepted()
                    })
                    &&& taken ==> action == CaptureAction::Enqueue(
                        FrameEnvelope {
                            data,
                            pts_ms: elapsed_nanos / NANOS_PER_MILLI,
                            width: old(self).width,
                            height: old(self).height,
                        },
                    )
                    &&& !taken ==> action == CaptureAction::Skip
                },
                PollOutcome::Pending => action == CaptureAction::Skip
                    && final(self).differ.last_accepted() == old(self).differ.last_accepted(),
                PollOutcome::Fatal => action == CaptureAction::Stop
                    && final(self).differ.last_accepted() == old(self).differ.last_accepted(),
            },
    {
        match outcome {
            PollOutcome::Frame(data) => {
                if self.differ.offer(&data) {
                    CaptureAction::Enqueue(
                        FrameEnvelope {
                            data,
                            pts_ms: elapsed_to_pts_ms(elapsed_nanos),
                            width: self.width,
                            height: self.height,
                        },
                    )
                } else {
                    CaptureAction::Skip
                }
            },
            PollOutcome::Pending => CaptureAction::Skip,
            PollOutcome::Fatal => CaptureAction::Stop,
        }
    }

    /// The sleep that pads an iteration of `elapsed_nanos` to the period.
    pub fn sleep_after(&self, elapsed_nanos: u64) -> (s: u64)
        ensures
            s as nat == residual(self.period_nanos as nat, elapsed_nanos as nat),
    {
        pacing_sleep_nanos(self.period_nanos, elapsed_nanos)
    }
}

/// Once a stop is requested no further poll begins, and the delivery loop
/// keeps forwarding while anything is queued: it can only finish on an
/// empty queue after capture has ended.
pub proof fn lemma_stop_halts_capture_and_drains(rec: Recorder, queued: Seq<FrameEnvelope>, capturing: bool)
    requires
        rec.stop_requested(),
    ensures
        !rec.polls_permitted(),
        queued.len() > 0 ==> delivery_step_of(capturing, queued.len()) == DeliveryStep::Forward,
        delivery_step_of(capturing, queued.len()) == DeliveryStep::Finish ==> queued.len() == 0 && !capturing,
{
}

} // verus!
