//! Rendered pixel buffers, and the bounded ordered channel that carries
//! them from the producer to the recording worker.
//!
//! The channel is the model of the hand-off: the host wraps it in a lock to
//! share it between the render side and the recorder side, and turns the
//! `send would overflow` and `nothing queued yet` answers into blocking.
//! Bounding is strict — a send that would overflow is refused and hands the
//! frame back, so the producer can wait or deliberately drop it, and memory
//! stays bounded whatever the consumer does.
use vstd::prelude::*;

verus! {

/// One rendered frame: a raw RGBA buffer, row-major, unpadded, exactly
/// `width * height * 4` bytes. Logical width and height may be smaller than
/// the recording canvas; the encoder letterboxes them into it.
#[derive(Debug)]
pub struct PixelFrame {
    /// Pixel columns.
    pub width: u32,
    /// Pixel rows.
    pub height: u32,
    /// Raw RGBA bytes, row-major, unpadded.
    pub data: Vec<u8>,
}

impl PixelFrame {
    /// The buffer length matches the declared geometry.
    pub open spec fn wf(&self) -> bool {
        self.data@.len() == self.width as int * self.height as int * 4
    }

    /// Builds a frame when the buffer length matches `width * height * 4`
    /// RGBA bytes; otherwise hands the buffer back untouched, so a refused
    /// frame is never leaked.
    pub fn new(width: u32, height: u32, data: Vec<u8>) -> (r: Result<PixelFrame, Vec<u8>>)
        ensures
            match r {
                Ok(f) => {
                    &&& f.wf()
                    &&& f.width == width
                    &&& f.height == height
                    &&& f.data == data
                },
                Err(d) => {
                    &&& d == data
                    &&& data@.len() != width as int * height as int * 4
                },
            },
    {
        let w = width as u64;
        let h = height as u64;
        assert(w * h < 0x1_0000_0000_0000_0000) by (nonlinear_arith)
            requires
                w <= 0xffff_ffffu64,
                h <= 0xffff_ffffu64,
        ;
        let pixels = w * h;
        let bytes = (pixels as u128) * 4;
        if (data.len() as u128) == bytes {
            Ok(PixelFrame { width, height, data })
        } else {
            Err(data)
        }
    }
}

/// The mathematical state of a channel: the queued frames oldest first,
/// the bound, and whether the producer has closed it.
#[verifier::ext_equal]
pub struct ChannelState {
    pub frames: Seq<PixelFrame>,
    pub bound: int,
    pub closed: bool,
}

/// What a receive attempt found.
pub enum FramePoll {
    /// The oldest queued frame, removed from the channel.
    Received(PixelFrame),
    /// Nothing queued, producer still active: the consumer should wait.
    Empty,
    /// Nothing queued and the channel is closed: end of the stream.
    Disconnected,
}

/// A bounded, ordered hand-off of frames. Frames come out exactly in the
/// order they went in; nothing is reordered, coalesced, duplicated or
/// silently dropped. Closing is the producer's end-of-stream signal: queued
/// frames stay receivable, new sends are refused.
pub struct FrameChannel {
    queue: Vec<PixelFrame>,
    bound: usize,
    closed: bool,
}

impl View for FrameChannel {
    type V = ChannelState;

    closed spec fn view(&self) -> ChannelState {
        ChannelState { frames: self.queue@, bound: self.bound as int, closed: self.closed }
    }
}

impl FrameChannel {
    /// An open, empty channel that will hold at most `bound` frames.
    pub fn new(bound: usize) -> (ch: FrameChannel)
        requires
            bound >= 1,
        ensures
            ch@ == (ChannelState { frames: Seq::<PixelFrame>::empty(), bound: bound as int, closed: false }),
    {
        let ch = FrameChannel { queue: Vec::new(), bound, closed: false };
        assert(ch@ =~= ChannelState {
            frames: Seq::<PixelFrame>::empty(),
            bound: bound as int,
            closed: false,
        });
        ch
    }

    /// Queues one frame, in arrival order, when the channel is open and not
    /// full; otherwise refuses and hands the frame back unchanged, so the
    /// producer can block or deliberately drop it — never lose it silently.
    pub fn send(&mut self, frame: PixelFrame) -> (r: Result<(), PixelFrame>)
        ensures
            if !old(self)@.closed && old(self)@.frames.len() < old(self)@.bound {
                &&& r is Ok
                &&& final(self)@ == (ChannelState {
                    frames: old(self)@.frames.push(frame),
                    ..old(self)@
                })
            } else {
                &&& r matches Err(f) && f == frame
                &&& final(self)@ == old(self)@
            },
    {
        if !self.closed && self.queue.len() < self.bound {
            self.queue.push(frame);
            assert(final(self)@ =~= ChannelState {
                frames: old(self)@.frames.push(frame),
                ..old(self)@
            });
            Ok(())
        } else {
            Err(frame)
        }
    }

    /// Takes the oldest queued frame; with nothing queued, says whether the
    /// consumer should wait (`Empty`) or shut down (`Disconnected`).
    pub fn recv(&mut self) -> (r: FramePoll)
        ensures
            old(self)@.frames.len() > 0 ==> {
                &&& r matches FramePoll::Received(f) && f == old(self)@.frames[0]
                &&& final(self)@ == (ChannelState {
                    frames: old(self)@.frames.drop_first(),
                    ..old(self)@
                })
            },
            old(self)@.frames.len() == 0 ==> {
                &&& final(self)@ == old(self)@
                &&& r == (if old(self)@.closed {
                    FramePoll::Disconnected
                } else {
                    FramePoll::Empty
                })
            },
    {
        if self.queue.len() > 0 {
            let f = self.queue.remove(0);
            assert(final(self)@ =~= ChannelState {
                frames: old(self)@.frames.drop_first(),
                ..old(self)@
            });
            FramePoll::Received(f)
        } else if self.closed {
            FramePoll::Disconnected
        } else {
            FramePoll::Empty
        }
    }

    /// Closes the producer side: the end-of-stream signal. Queued frames
    /// stay receivable; closing again changes nothing.
    pub fn close(&mut self)
        ensures
            final(self)@ == (ChannelState { closed: true, ..old(self)@ }),
    {
        self.closed = true;
        assert(final(self)@ =~= ChannelState { closed: true, ..old(self)@ });
    }

    /// How many frames are queued right now.
    pub fn queued(&self) -> (n: usize)
        ensures
            n == self@.frames.len(),
    {
        self.queue.len()
    }

    /// Whether the producer has closed the channel.
    pub fn is_closed(&self) -> (b: bool)
        ensures
            b == self@.closed,
    {
        self.closed
    }
}

/// The channel state after offering the frames of `fs` in order, each by
/// one `send`: accepted frames are queued, refused ones leave it unchanged.
pub open spec fn after_sends(st: ChannelState, fs: Seq<PixelFrame>) -> ChannelState
    decreases fs.len(),
{
    if fs.len() == 0 {
        st
    } else {
        let st1 = if !st.closed && st.frames.len() < st.bound {
            ChannelState { frames: st.frames.push(fs[0]), ..st }
        } else {
            st
        };
        after_sends(st1, fs.drop_first())
    }
}

/// Law: under non-overflow conditions the channel loses, duplicates and
/// reorders nothing — after sending `fs` into an open channel with room for
/// all of it, exactly the old queue followed by `fs` is queued. Together
/// with `recv` (which always yields the oldest frame), the consumer
/// observes exactly the sent frames in send order.
pub proof fn lemma_channel_preserves_order(st: ChannelState, fs: Seq<PixelFrame>)
    requires
        !st.closed,
        st.frames.len() + fs.len() <= st.bound,
    ensures
        after_sends(st, fs).frames == st.frames + fs,
        after_sends(st, fs).bound == st.bound,
        after_sends(st, fs).closed == st.closed,
    decreases fs.len(),
{
    if fs.len() == 0 {
        assert(st.frames + fs =~= st.frames);
    } else {
        let st1 = ChannelState { frames: st.frames.push(fs[0]), ..st };
        lemma_channel_preserves_order(st1, fs.drop_first());
        assert(st.frames.push(fs[0]) + fs.drop_first() =~= st.frames + fs);
    }
}

} // verus!
