//! The capture side of the pipeline: a session that numbers each compressed
//! frame, stores it in the history buffer, records the output configuration
//! from the first acquired frame, checks that the raw frame size never changes
//! mid-session, and the pure pacing and reporting decisions of the capture
//! loop.
use vstd::prelude::*;

use crate::buffer::HistoryBuffer;
use crate::buffer::bytes_total;
use crate::buffer::push_evict;
use crate::frame::CompressedFrame;
use crate::frame::OutputConfig;
use crate::frame::RawPixelFormat;
use crate::frame::frames_view;

verus! {

/// The larger of two sizes.
pub open spec fn max_usize(a: usize, b: usize) -> usize {
    if a >= b {
        a
    } else {
        b
    }
}

/// The stored frames carry consecutive sequence numbers and the newest one,
/// if any, carries `next - 1`.
pub open spec fn seqs_consecutive_upto(v: Seq<(Seq<u8>, u64)>, next: u64) -> bool {
    &&& v.len() <= next
    &&& forall|i: int| 0 <= i < v.len() ==> #[trigger] v[i].1 == next - v.len() + i
}

/// In a run of consecutive sequence numbers, later frames carry strictly
/// larger numbers and adjacent frames differ by exactly one: no number is
/// repeated and none is skipped.
pub proof fn lemma_consecutive_no_gaps(v: Seq<(Seq<u8>, u64)>, next: u64)
    requires
        seqs_consecutive_upto(v, next),
    ensures
        forall|i: int, j: int| 0 <= i < j < v.len() ==> v[i].1 < v[j].1,
        forall|i: int| 0 <= i < v.len() - 1 ==> v[i + 1].1 == #[trigger] v[i].1 + 1,
{
}

/// A fatal condition reported by the capture session.
#[derive(Clone, Copy, Debug, PartialEq, Eq, Structural)]
pub enum CaptureError {
    /// A raw frame's byte length differed from the length of the session's
    /// first frame: the source changed resolution or format mid-session.
    RawSizeChanged {
        /// The raw length recorded from the first frame.
        expected: usize,
        /// The raw length just observed.
        actual: usize,
    },
}

/// One capture session: the history buffer plus the bookkeeping of the
/// capture loop. The session is the sole writer of the buffer; sequence
/// numbers start at zero and increase by one per accepted frame.
pub struct CaptureSession {
    buffer: HistoryBuffer,
    next_seq: u64,
    expected_raw_len: Option<usize>,
    config: Option<OutputConfig>,
    max_raw_len: usize,
    max_compressed_len: usize,
}

impl CaptureSession {
    /// The stored frames, oldest first.
    pub closed spec fn frames(&self) -> Seq<(Seq<u8>, u64)> {
        self.buffer.frames()
    }

    /// The buffer's fixed capacity.
    pub closed spec fn capacity(&self) -> nat {
        self.buffer.capacity()
    }

    /// The sequence number the next accepted frame will carry.
    pub closed spec fn next_seq(&self) -> u64 {
        self.next_seq
    }

    /// The raw frame length recorded from the first accepted frame.
    pub closed spec fn expected_raw_len(&self) -> Option<usize> {
        self.expected_raw_len
    }

    /// The output configuration captured from the first accepted frame.
    pub closed spec fn config(&self) -> Option<OutputConfig> {
        self.config
    }

    /// The largest raw frame size seen since the last report window reset.
    pub closed spec fn max_raw_len(&self) -> usize {
        self.max_raw_len
    }

    /// The largest compressed frame size seen since the last report window
    /// reset.
    pub closed spec fn max_compressed_len(&self) -> usize {
        self.max_compressed_len
    }

    /// The buffer never overflows its capacity and always holds a gapless run
    /// of sequence numbers ending just below `next_seq`.
    pub open spec fn wf(&self) -> bool {
        &&& self.frames().len() <= self.capacity()
        &&& seqs_consecutive_upto(self.frames(), self.next_seq())
    }

    /// A fresh session around an empty buffer of the given capacity.
    pub fn new(capacity: usize) -> (r: CaptureSession)
        ensures
            r.wf(),
            r.capacity() == capacity as nat,
            r.frames() == Seq::<(Seq<u8>, u64)>::empty(),
            r.next_seq() == 0,
            r.expected_raw_len() is None,
            r.config() is None,
            r.max_raw_len() == 0,
            r.max_compressed_len() == 0,
    {
        CaptureSession {
            buffer: HistoryBuffer::new(capacity),
            next_seq: 0,
            expected_raw_len: None,
            config: None,
            max_raw_len: 0,
            max_compressed_len: 0,
        }
    }

    /// Accept one acquired and compressed frame: verify the raw length against
    /// the session's first frame, record the output configuration on first
    /// success, tag the compressed bytes with the next sequence number and
    /// store them, evicting the oldest frame once the buffer is full. Returns
    /// the assigned sequence number, or the fatal error when the raw size
    /// changed mid-session, in which case nothing is changed.
    pub fn accept_frame(
        &mut self,
        raw_len: usize,
        width: u32,
        height: u32,
        fps: u32,
        compressed: Vec<u8>,
    ) -> (r: Result<u64, CaptureError>)
        requires
            old(self).wf(),
            old(self).next_seq() < u64::MAX,
        ensures
            final(self).wf(),
            final(self).capacity() == old(self).capacity(),
            r is Err <==> (old(self).expected_raw_len() matches Some(e) && e != raw_len),
            match r {
                Ok(seq) => {
                    &&& seq == old(self).next_seq()
                    &&& final(self).next_seq() == old(self).next_seq() + 1
                    &&& final(self).expected_raw_len() == Some(raw_len)
                    &&& final(self).config() == (if old(self).config() is Some {
                        old(self).config()
                    } else {
                        Some(
                            OutputConfig {
                                pixel_format: RawPixelFormat::Bgra,
                                fps,
                                width,
                                height,
                            },
                        )
                    })
                    &&& final(self).frames() == push_evict(
                        old(self).frames(),
                        (compressed@, seq),
                        old(self).capacity(),
                    )
                    &&& final(self).max_raw_len() == max_usize(old(self).max_raw_len(), raw_len)
                    &&& final(self).max_compressed_len() == max_usize(
                        old(self).max_compressed_len(),
                        compressed.len() as usize,
                    )
                },
                Err(e) => {
                    &&& (e matches CaptureError::RawSizeChanged { expected, actual } && old(
                        self,
                    ).expected_raw_len() == Some(expected) && actual == raw_len)
                    &&& *final(self) == *old(self)
                },
            },
    {
        match self.expected_raw_len {
            Some(expected) => {
                if expected != raw_len {
                    return Err(CaptureError::RawSizeChanged { expected, actual: raw_len });
                }
            },
            None => {
                self.expected_raw_len = Some(raw_len);
            },
        }
        if self.config.is_none() {
            self.config = Some(
                OutputConfig { pixel_format: RawPixelFormat::Bgra, fps, width, height },
            );
        }
        if raw_len > self.max_raw_len {
            self.max_raw_len = raw_len;
        }
        if compressed.len() > self.max_compressed_len {
            self.max_compressed_len = compressed.len();
        }
        let seq = self.next_seq;
        let ghost pre = self.buffer.frames();
        let ghost cap = self.buffer.capacity();
        self.buffer.push(CompressedFrame { data: compressed, seq });
        self.next_seq = seq + 1;
        proof {
            let post = self.buffer.frames();
            assert forall|i: int| 0 <= i < post.len() implies #[trigger] post[i].1 == self.next_seq
                - post.len() + i by {
                if cap > 0 && pre.len() >= cap {
                    if i < post.len() - 1 {
                        assert(post[i] == pre[i + 1]);
                    }
                } else if cap > 0 {
                    if i < post.len() - 1 {
                        assert(post[i] == pre[i]);
                    }
                }
            }
        }
        Ok(seq)
    }

    /// Remove and return every stored frame in first-in-first-out order,
    /// leaving the buffer empty for the capture loop to keep filling. The
    /// drained frames carry consecutive sequence numbers ending just below
    /// `next_seq`, which the next accepted frame continues without a gap.
    pub fn drain_all(&mut self) -> (r: Vec<CompressedFrame>)
        requires
            old(self).wf(),
        ensures
            final(self).wf(),
            final(self).capacity() == old(self).capacity(),
            final(self).frames() == Seq::<(Seq<u8>, u64)>::empty(),
            frames_view(r@) == old(self).frames(),
            seqs_consecutive_upto(frames_view(r@), old(self).next_seq()),
            final(self).next_seq() == old(self).next_seq(),
            final(self).config() == old(self).config(),
            final(self).expected_raw_len() == old(self).expected_raw_len(),
            final(self).max_raw_len() == old(self).max_raw_len(),
            final(self).max_compressed_len() == old(self).max_compressed_len(),
    {
        self.buffer.drain_all()
    }

    /// How many frames the buffer currently holds.
    pub fn len(&self) -> (r: usize)
        ensures
            r == self.frames().len(),
    {
        self.buffer.len()
    }

    /// The sum of the stored frames' compressed sizes, for memory reporting.
    pub fn total_bytes(&self) -> (r: u128)
        ensures
            r == bytes_total(self.frames()),
    {
        self.buffer.total_bytes()
    }

    /// The sequence number the next accepted frame will carry.
    pub fn next_sequence(&self) -> (r: u64)
        ensures
            r == self.next_seq(),
    {
        self.next_seq
    }

    /// The output configuration captured so far, if any frame was accepted.
    pub fn current_config(&self) -> (r: Option<OutputConfig>)
        ensures
            r == self.config(),
    {
        self.config
    }

    /// The largest raw and compressed frame sizes seen since the last window
    /// reset, in that order.
    pub fn report_window(&self) -> (r: (usize, usize))
        ensures
            r.0 == self.max_raw_len(),
            r.1 == self.max_compressed_len(),
    {
        (self.max_raw_len, self.max_compressed_len)
    }

    /// Start a new report window: forget the size maxima seen so far.
    pub fn reset_report_window(&mut self)
        ensures
            final(self).max_raw_len() == 0,
            final(self).max_compressed_len() == 0,
            final(self).frames() == old(self).frames(),
            final(self).capacity() == old(self).capacity(),
            final(self).next_seq() == old(self).next_seq(),
            final(self).config() == old(self).config(),
            final(self).expected_raw_len() == old(self).expected_raw_len(),
            old(self).wf() ==> final(self).wf(),
    {
        self.max_raw_len = 0;
        self.max_compressed_len = 0;
    }
}

/// The nanoseconds of one frame at the given rate: one second divided by the
/// target frame rate, fractions discarded.
pub open spec fn spec_frame_interval_ns(fps: nat) -> nat {
    (1_000_000_000 as nat) / fps
}

/// The buffer capacity that covers the rolling window: the window's length
/// divided by the frame interval.
pub open spec fn spec_buffer_capacity(secs: nat, fps: nat) -> nat {
    (secs * 1_000_000_000) / spec_frame_interval_ns(fps)
}

/// The target frame interval in nanoseconds.
pub fn frame_interval_ns(target_fps: u32) -> (r: u64)
    requires
        target_fps >= 1,
    ensures
        r == spec_frame_interval_ns(target_fps as nat),
{
    1_000_000_000u64 / (target_fps as u64)
}

/// How many slots the history buffer needs so that, at the target rate, it
/// covers the whole rolling window.
pub fn buffer_capacity(buffer_duration_secs: u64, target_fps: u32) -> (r: u64)
    requires
        1 <= target_fps <= 1_000_000_000,
        buffer_duration_secs * 1_000_000_000 <= u64::MAX,
    ensures
        r == spec_buffer_capacity(buffer_duration_secs as nat, target_fps as nat),
{
    let interval = frame_interval_ns(target_fps);
    proof {
        vstd::arithmetic::div_mod::lemma_div_non_zero(1_000_000_000int, target_fps as int);
    }
    (buffer_duration_secs * 1_000_000_000) / interval
}

/// The stride (bytes per row) of an acquired raw frame, from its total length
/// and the display height.
pub fn raw_stride(raw_len: usize, height: usize) -> (r: usize)
    requires
        height >= 1,
    ensures
        r == raw_len as int / height as int,
{
    raw_len / height
}

/// The pacing decision at the end of one loop iteration: how long to sleep so
/// that the iteration fills the target interval, and whether the loop fell
/// behind (took the whole interval or longer). A late iteration proceeds
/// immediately; no frame is dropped to catch up.
pub fn pacing_sleep_ns(elapsed_ns: u64, interval_ns: u64) -> (r: (u64, bool))
    ensures
        r.0 == (if elapsed_ns < interval_ns {
            (interval_ns - elapsed_ns) as u64
        } else {
            0u64
        }),
        r.1 == (elapsed_ns >= interval_ns),
{
    if elapsed_ns < interval_ns {
        (interval_ns - elapsed_ns, false)
    } else {
        (0, true)
    }
}

/// How many loop iterations lie between two memory reports: about five
/// seconds' worth of frames.
pub fn report_interval_frames(target_fps: u32) -> (r: u64)
    ensures
        r == target_fps * 5,
{
    (target_fps as u64) * 5
}

/// Whether this iteration is one that prints the periodic memory report.
pub fn should_report(loop_idx: u64, report_every: u64) -> (r: bool)
    requires
        report_every >= 1,
    ensures
        r == (loop_idx % report_every == 0),
{
    loop_idx % report_every == 0
}

} // verus!
