//! The recording worker: owns the external encoder subprocess's lifecycle
//! and pumps frames into its input, in order, at a fixed nominal rate.
//!
//! The worker is the decision half of the recorder; the host performs what
//! it decides. `Starting`, the host launches the encoder and reports back.
//! `Streaming`, every frame the channel yields is handed out to be written,
//! raw, to the encoder's input. Once the channel is closed and fully
//! drained the worker is `Draining`, and `shutdown` hands the host the
//! termination steps in their required order: close the input so the
//! encoder can finalize the file, then signal termination, then await exit.
//! `Stopped` is terminal, and shutting down again does nothing.
use vstd::prelude::*;

use crate::frames::FrameChannel;
use crate::frames::FramePoll;
use crate::frames::PixelFrame;

verus! {

/// Nominal recording rate: frames advance the stream clock by one tick
/// each, ten ticks to the second, regardless of real arrival timing.
pub const NOMINAL_FRAMES_PER_SECOND: u64 = 10;

/// Where the worker stands in the encoder subprocess's lifecycle.
#[derive(Debug, Clone, Copy, PartialEq, Eq, Structural)]
pub enum RecorderState {
    /// The encoder subprocess is being launched.
    Starting,
    /// Frames are flowing to the encoder's input.
    Streaming,
    /// The channel reported closed-and-empty; no further frames accepted.
    Draining,
    /// A mid-stream write failed; only termination remains.
    Terminating,
    /// Terminal: the subprocess has been terminated and awaited.
    Stopped,
}

/// One termination step the host must perform, in the order given.
#[derive(Debug, Clone, Copy, PartialEq, Eq, Structural)]
pub enum ShutdownStep {
    /// Flush and close the encoder's input so it can finalize its output.
    CloseInput,
    /// Send the graceful termination signal unconditionally; if the
    /// encoder already exited at end-of-input, the signal reporting that
    /// there is no such process is expected and is not an error.
    SignalTerminate,
    /// Wait for the subprocess to exit before the host may shut down.
    AwaitExit,
}

/// One frame handed out to be written: the raw buffer, and its position on
/// the stream clock in ticks at the nominal rate.
#[derive(Debug)]
pub struct FrameOut {
    /// The frame to write, in full, to the encoder's input.
    pub frame: PixelFrame,
    /// Monotonic stream timestamp: this frame's index, one tick apiece.
    pub timestamp_ticks: u64,
}

/// What one receive-and-forward attempt found.
#[derive(Debug)]
pub enum PumpEvent {
    /// The next frame, to be written to the encoder's input now.
    Delivered(FrameOut),
    /// Nothing queued yet; the producer is still active, so wait.
    NoFrameYet,
    /// The channel is closed and fully drained; the worker is `Draining`.
    InputExhausted,
}

/// Owns the encoder subprocess's lifecycle. Launch failure is fatal to
/// recording only, reported once and never retried; a mid-stream write
/// failure likewise. Neither reaches telemetry ingestion.
pub struct RecordingWorker {
    state: RecorderState,
    width: u32,
    height: u32,
    frames_delivered: u64,
    launch_reported: bool,
    stream_reported: bool,
    delivered: Ghost<Seq<PixelFrame>>,
}

impl RecordingWorker {
    /// Where the worker stands.
    pub closed spec fn state(&self) -> RecorderState {
        self.state
    }

    /// Configured input width, pixels.
    pub closed spec fn width(&self) -> u32 {
        self.width
    }

    /// Configured input height, pixels.
    pub closed spec fn height(&self) -> u32 {
        self.height
    }

    /// Every frame handed out for writing, oldest first.
    pub closed spec fn delivered(&self) -> Seq<PixelFrame> {
        self.delivered@
    }

    /// Whether a launch failure has been reported.
    pub closed spec fn launch_reported(&self) -> bool {
        self.launch_reported
    }

    /// Whether a mid-stream write failure has been reported.
    pub closed spec fn stream_reported(&self) -> bool {
        self.stream_reported
    }

    /// The exec frame counter agrees with the delivery log.
    pub closed spec fn wf(&self) -> bool {
        self.frames_delivered == self.delivered@.len()
    }

    /// A frame the configuration admits: well formed, at the configured
    /// geometry. Anything else is a caller error, not a runtime case.
    pub open spec fn accepts(&self, f: PixelFrame) -> bool {
        f.wf() && f.width == self.width() && f.height == self.height()
    }

    /// Where the worker stands, for the host's bookkeeping.
    pub fn current_state(&self) -> (s: RecorderState)
        ensures
            s == self.state(),
    {
        self.state
    }

    /// How many frames have been handed out for writing.
    pub fn frames_delivered(&self) -> (n: u64)
        ensures
            self.wf() ==> n == self.delivered().len(),
    {
        self.frames_delivered
    }

    /// Whether a launch failure has been reported.
    pub fn launch_failure_reported(&self) -> (b: bool)
        ensures
            b == self.launch_reported(),
    {
        self.launch_reported
    }

    /// Whether a mid-stream write failure has been reported.
    pub fn stream_failure_reported(&self) -> (b: bool)
        ensures
            b == self.stream_reported(),
    {
        self.stream_reported
    }

    /// A worker about to launch an encoder for `width` by `height` input.
    pub fn new(width: u32, height: u32) -> (w: RecordingWorker)
        ensures
            w.state() is Starting,
            w.width() == width,
            w.height() == height,
            w.delivered() == Seq::<PixelFrame>::empty(),
            !w.launch_reported(),
            !w.stream_reported(),
            w.wf(),
    {
        RecordingWorker {
            state: RecorderState::Starting,
            width,
            height,
            frames_delivered: 0,
            launch_reported: false,
            stream_reported: false,
            delivered: Ghost(Seq::empty()),
        }
    }

    /// The host launched the encoder and acquired its three streams.
    pub fn launch_succeeded(&mut self)
        requires
            old(self).state() is Starting,
        ensures
            final(self).state() is Streaming,
            final(self).width() == old(self).width(),
            final(self).height() == old(self).height(),
            final(self).delivered() == old(self).delivered(),
            final(self).launch_reported() == old(self).launch_reported(),
            final(self).stream_reported() == old(self).stream_reported(),
            final(self).wf() == old(self).wf(),
    {
        self.state = RecorderState::Streaming;
    }

    /// The encoder could not be launched: recording stops here, reported
    /// once, never retried; ingestion and display are unaffected.
    pub fn launch_failed(&mut self)
        requires
            old(self).state() is Starting,
        ensures
            final(self).state() is Stopped,
            final(self).launch_reported(),
            final(self).width() == old(self).width(),
            final(self).height() == old(self).height(),
            final(self).delivered() == old(self).delivered(),
            final(self).stream_reported() == old(self).stream_reported(),
            final(self).wf() == old(self).wf(),
    {
        self.state = RecorderState::Stopped;
        self.launch_reported = true;
    }

    /// A mid-stream write to the encoder's input failed (broken pipe, dead
    /// subprocess): streaming aborts, reported once; only termination
    /// remains, and the failure never propagates past recording.
    pub fn write_failed(&mut self)
        requires
            old(self).state() is Streaming,
        ensures
            final(self).state() is Terminating,
            final(self).stream_reported(),
            final(self).width() == old(self).width(),
            final(self).height() == old(self).height(),
            final(self).delivered() == old(self).delivered(),
            final(self).launch_reported() == old(self).launch_reported(),
            final(self).wf() == old(self).wf(),
    {
        self.state = RecorderState::Terminating;
        self.stream_reported = true;
    }

    /// One streaming step: takes the next frame from the channel and hands
    /// it out for writing, stamped with the next tick of the stream clock.
    /// With nothing queued, either waits on the producer or — once the
    /// channel is closed and fully drained — moves to `Draining`.
    pub fn poll_frame(&mut self, ch: &mut FrameChannel) -> (ev: PumpEvent)
        requires
            old(self).state() is Streaming,
            old(self).wf(),
            old(ch)@.frames.len() > 0 ==> old(self).accepts(old(ch)@.frames[0])
                && old(self).delivered().len() < u64::MAX,
        ensures
            final(self).wf(),
            final(self).width() == old(self).width(),
            final(self).height() == old(self).height(),
            final(self).launch_reported() == old(self).launch_reported(),
            final(self).stream_reported() == old(self).stream_reported(),
            final(ch)@.bound == old(ch)@.bound,
            final(ch)@.closed == old(ch)@.closed,
            old(ch)@.frames.len() > 0 ==> {
                &&& ev matches PumpEvent::Delivered(out)
                &&& out.frame == old(ch)@.frames[0]
                &&& out.timestamp_ticks == old(self).delivered().len()
                &&& final(self).delivered() == old(self).delivered().push(old(ch)@.frames[0])
                &&& final(self).state() is Streaming
                &&& final(ch)@.frames == old(ch)@.frames.drop_first()
            },
            old(ch)@.frames.len() == 0 && !old(ch)@.closed ==> {
                &&& ev is NoFrameYet
                &&& final(self).delivered() == old(self).delivered()
                &&& final(self).state() is Streaming
                &&& final(ch)@ == old(ch)@
            },
            old(ch)@.frames.len() == 0 && old(ch)@.closed ==> {
                &&& ev is InputExhausted
                &&& final(self).delivered() == old(self).delivered()
                &&& final(self).state() is Draining
                &&& final(ch)@ == old(ch)@
            },
    {
        match ch.recv() {
            FramePoll::Received(frame) => {
                let ticks = self.frames_delivered;
                self.frames_delivered = self.frames_delivered + 1;
                proof {
                    self.delivered@ = self.delivered@.push(frame);
                }
                PumpEvent::Delivered(FrameOut { frame, timestamp_ticks: ticks })
            },
            FramePoll::Empty => PumpEvent::NoFrameYet,
            FramePoll::Disconnected => {
                self.state = RecorderState::Draining;
                PumpEvent::InputExhausted
            },
        }
    }

    /// Pumps until the channel has nothing more to give right now: every
    /// queued frame comes out, in queue order, with consecutive ticks — no
    /// frame is lost, duplicated or reordered. If the channel was closed,
    /// every queued frame is drained first and only then does the worker
    /// move to `Draining`; otherwise it stays `Streaming` and the host
    /// waits on the producer.
    pub fn pump_available(&mut self, ch: &mut FrameChannel) -> (outs: Vec<FrameOut>)
        requires
            old(self).state() is Streaming,
            old(self).wf(),
            forall|i: int|
                0 <= i < old(ch)@.frames.len() ==> old(self).accepts(#[trigger] old(ch)@.frames[i]),
            old(self).delivered().len() + old(ch)@.frames.len() <= u64::MAX,
        ensures
            final(self).wf(),
            final(self).width() == old(self).width(),
            final(self).height() == old(self).height(),
            final(self).launch_reported() == old(self).launch_reported(),
            final(self).stream_reported() == old(self).stream_reported(),
            final(ch)@.bound == old(ch)@.bound,
            final(ch)@.closed == old(ch)@.closed,
            final(ch)@.frames.len() == 0,
            final(self).delivered() == old(self).delivered() + old(ch)@.frames,
            outs@.len() == old(ch)@.frames.len(),
            forall|i: int|
                0 <= i < outs@.len() ==> #[trigger] outs@[i].frame == old(ch)@.frames[i]
                    && outs@[i].timestamp_ticks == old(self).delivered().len() + i,
            final(self).state() == (if old(ch)@.closed {
                RecorderState::Draining
            } else {
                RecorderState::Streaming
            }),
    {
        let mut outs: Vec<FrameOut> = Vec::new();
        assert(old(ch)@.frames.skip(0) =~= old(ch)@.frames);
        assert(old(self).delivered() + old(ch)@.frames.take(0) =~= old(self).delivered());
        loop
            invariant_except_break
                self.state() is Streaming,
            invariant
                self.wf(),
                self.width() == old(self).width(),
                self.height() == old(self).height(),
                self.launch_reported() == old(self).launch_reported(),
                self.stream_reported() == old(self).stream_reported(),
                ch@.bound == old(ch)@.bound,
                ch@.closed == old(ch)@.closed,
                outs@.len() + ch@.frames.len() == old(ch)@.frames.len(),
                ch@.frames == old(ch)@.frames.skip(outs@.len() as int),
                self.delivered() == old(self).delivered() + old(ch)@.frames.take(
                    outs@.len() as int,
                ),
                old(self).delivered().len() + old(ch)@.frames.len() <= u64::MAX,
                forall|i: int|
                    0 <= i < old(ch)@.frames.len() ==> old(self).accepts(
                        #[trigger] old(ch)@.frames[i],
                    ),
                forall|i: int|
                    0 <= i < outs@.len() ==> #[trigger] outs@[i].frame == old(ch)@.frames[i]
                        && outs@[i].timestamp_ticks == old(self).delivered().len() + i,
            ensures
                ch@.frames.len() == 0,
                self.state() == (if ch@.closed {
                    RecorderState::Draining
                } else {
                    RecorderState::Streaming
                }),
            decreases ch@.frames.len(),
        {
            let ghost done = outs@.len() as int;
            assert(ch@.frames.len() > 0 ==> ch@.frames[0] == old(ch)@.frames[done]);
            let ev = self.poll_frame(ch);
            match ev {
                PumpEvent::Delivered(out) => {
                    assert(old(ch)@.frames.skip(done).drop_first() =~= old(ch)@.frames.skip(
                        done + 1,
                    ));
                    assert(old(ch)@.frames.take(done).push(old(ch)@.frames[done])
                        =~= old(ch)@.frames.take(done + 1));
                    outs.push(out);
                },
                PumpEvent::NoFrameYet => {
                    break ;
                },
                PumpEvent::InputExhausted => {
                    break ;
                },
            }
        }
        assert(old(ch)@.frames.take(outs@.len() as int) =~= old(ch)@.frames);
        outs
    }

    /// Terminates the subprocess, once. From `Draining` (stream complete)
    /// or `Terminating` (stream aborted), hands back the three termination
    /// steps in their required order — close the input, signal, await —
    /// and stops. Once `Stopped`, shutting down again is a no-op: no steps,
    /// nothing changed.
    pub fn shutdown(&mut self) -> (steps: Vec<ShutdownStep>)
        requires
            old(self).state() is Draining || old(self).state() is Terminating || old(
                self,
            ).state() is Stopped,
        ensures
            final(self).state() is Stopped,
            final(self).width() == old(self).width(),
            final(self).height() == old(self).height(),
            final(self).delivered() == old(self).delivered(),
            final(self).launch_reported() == old(self).launch_reported(),
            final(self).stream_reported() == old(self).stream_reported(),
            final(self).wf() == old(self).wf(),
            !(old(self).state() is Stopped) ==> steps@ == seq![
                ShutdownStep::CloseInput,
                ShutdownStep::SignalTerminate,
                ShutdownStep::AwaitExit,
            ],
            old(self).state() is Stopped ==> steps@ == Seq::<ShutdownStep>::empty() && *final(self)
                == *old(self),
    {
        match self.state {
            RecorderState::Stopped => {
                let steps: Vec<ShutdownStep> = Vec::new();
                assert(steps@ =~= Seq::<ShutdownStep>::empty());
                steps
            },
            _ => {
                self.state = RecorderState::Stopped;
                let mut steps: Vec<ShutdownStep> = Vec::new();
                steps.push(ShutdownStep::CloseInput);
                steps.push(ShutdownStep::SignalTerminate);
                steps.push(ShutdownStep::AwaitExit);
                assert(steps@ =~= seq![
                    ShutdownStep::CloseInput,
                    ShutdownStep::SignalTerminate,
                    ShutdownStep::AwaitExit,
                ]);
                steps
            },
        }
    }
}

} // verus!
