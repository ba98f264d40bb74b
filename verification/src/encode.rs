//! The encode pipeline's command protocol and feeder logic: a session is
//! exactly one `Configure`, then the drained frames in order, then one `End`;
//! the feeder re-validates every frame's dimensions against the configuration
//! and pauses while too many decoded frames sit unconsumed in the queue.
use vstd::prelude::*;

use crate::capture::seqs_consecutive_upto;
use crate::frame::CompressedFrame;
use crate::frame::OutputConfig;
use crate::frame::frames_view;

verus! {

/// How many decoded-but-unconsumed frames may sit in the encoder's queue
/// before the feeder pauses.
pub const BACKPRESSURE_THRESHOLD: usize = 5;

/// The fixed quality level every frame is compressed at.
pub const JPEG_QUALITY: i32 = 80;

/// One message of the encode session: configure the encoder, feed one frame,
/// or finish the output file.
#[derive(Debug)]
pub enum EncodeCommand {
    /// Open the output and initialize the encoder; sent exactly once, first.
    Configure(OutputConfig),
    /// One compressed frame to decode and encode at its position.
    Frame(OutputFrame),
    /// Flush and finalize the output file; sent exactly once, last.
    End,
}

/// One frame of the output video: the position it takes in the produced file,
/// counted from zero per export in send order, and the compressed frame to
/// decode for it. The position numbers the output; the frame's own sequence
/// number still names its place in the capture stream.
#[derive(Debug)]
pub struct OutputFrame {
    /// The frame's position in the output file, starting at zero.
    pub position: u64,
    /// The compressed frame to decode and encode there.
    pub frame: CompressedFrame,
}

impl View for OutputFrame {
    type V = (u64, (Seq<u8>, u64));

    open spec fn view(&self) -> (u64, (Seq<u8>, u64)) {
        (self.position, self.frame@)
    }
}

/// The mathematical image of a command.
pub enum CommandView {
    /// Image of `EncodeCommand::Configure`.
    Configure(OutputConfig),
    /// Image of `EncodeCommand::Frame`: the output position, then the frame's
    /// bytes and sequence number.
    Frame((u64, (Seq<u8>, u64))),
    /// Image of `EncodeCommand::End`.
    End,
}

impl View for EncodeCommand {
    type V = CommandView;

    closed spec fn view(&self) -> CommandView {
        match self {
            EncodeCommand::Configure(c) => CommandView::Configure(*c),
            EncodeCommand::Frame(f) => CommandView::Frame(f@),
            EncodeCommand::End => CommandView::End,
        }
    }
}

/// The mathematical image of a vector of commands.
pub open spec fn commands_view(v: Seq<EncodeCommand>) -> Seq<CommandView> {
    v.map_values(|c: EncodeCommand| c@)
}

/// The full command sequence of one encode session over the given frames: the
/// configuration, every frame in drained order at output positions 0, 1, ...,
/// the end marker.
pub open spec fn session_commands(cfg: OutputConfig, fs: Seq<(Seq<u8>, u64)>) -> Seq<CommandView> {
    seq![CommandView::Configure(cfg)] + fs.map(
        |i: int, f: (Seq<u8>, u64)| CommandView::Frame(((i as u64), f)),
    ) + seq![CommandView::End]
}

/// A well-formed encode session: one `Configure` before everything, one `End`
/// after everything, and nothing but frames in between.
pub open spec fn valid_session(cmds: Seq<CommandView>) -> bool {
    &&& cmds.len() >= 2
    &&& cmds[0] is Configure
    &&& cmds.last() is End
    &&& forall|i: int| 1 <= i < cmds.len() - 1 ==> cmds[i] is Frame
}

/// The capture sequence number a frame command carries.
pub open spec fn frame_seq(c: CommandView) -> u64 {
    match c {
        CommandView::Frame(f) => f.1.1,
        _ => 0,
    }
}

/// The output position a frame command carries.
pub open spec fn frame_position(c: CommandView) -> u64 {
    match c {
        CommandView::Frame(f) => f.0,
        _ => 0,
    }
}

/// Protocol law: for every encode session, exactly one `Configure` comes
/// before all frame commands and exactly one `End` after the last, whatever
/// the frames are.
pub proof fn lemma_session_protocol(cfg: OutputConfig, fs: Seq<(Seq<u8>, u64)>)
    ensures
        valid_session(session_commands(cfg, fs)),
        session_commands(cfg, fs).len() == fs.len() + 2,
        forall|i: int| 1 <= i <= fs.len() ==> #[trigger] session_commands(cfg, fs)[i]
            == CommandView::Frame((((i - 1) as u64), fs[i - 1])),
{
    let cmds = session_commands(cfg, fs);
    assert forall|i: int| 1 <= i <= fs.len() implies #[trigger] cmds[i] == CommandView::Frame(
        (((i - 1) as u64), fs[i - 1]),
    ) by {
        assert(fs.map(|j: int, f: (Seq<u8>, u64)| CommandView::Frame(((j as u64), f)))[i - 1]
            == CommandView::Frame((((i - 1) as u64), fs[i - 1])));
    }
}

/// Renumbering law: the output positions handed to the encoder are exactly 0,
/// 1, ..., n-1 in send order — one per drained frame, strictly increasing,
/// gapless, starting at zero — whichever window was drained.
pub proof fn lemma_output_positions(cfg: OutputConfig, fs: Seq<(Seq<u8>, u64)>)
    requires
        fs.len() <= u64::MAX,
    ensures
        forall|i: int|
            1 <= i <= fs.len() ==> frame_position(#[trigger] session_commands(cfg, fs)[i]) == i
                - 1,
{
    lemma_session_protocol(cfg, fs);
}

/// Sequence-number law: when the drained frames carry a gapless run of
/// numbers, the frame commands the encode pipeline observes carry strictly
/// increasing capture sequence numbers with no gaps, however many frames were
/// drained.
pub proof fn lemma_pipeline_sequence_numbers(cfg: OutputConfig, fs: Seq<(Seq<u8>, u64)>, next: u64)
    requires
        seqs_consecutive_upto(fs, next),
    ensures
        forall|i: int, j: int|
            1 <= i < j <= fs.len() ==> frame_seq(#[trigger] session_commands(cfg, fs)[i])
                < frame_seq(#[trigger] session_commands(cfg, fs)[j]),
        forall|i: int|
            1 <= i < fs.len() ==> frame_seq(#[trigger] session_commands(cfg, fs)[i + 1])
                == frame_seq(session_commands(cfg, fs)[i]) + 1,
{
    lemma_session_protocol(cfg, fs);
}

/// Build the command sequence of one encode session: `Configure` with the
/// captured configuration, one `Frame` per drained frame in order, renumbered
/// from zero for the output, then `End`.
pub fn build_commands(config: OutputConfig, frames: Vec<CompressedFrame>) -> (r: Vec<EncodeCommand>)
    ensures
        commands_view(r@) == session_commands(config, frames_view(frames@)),
{
    let ghost all = frames@;
    let mut out: Vec<EncodeCommand> = Vec::new();
    out.push(EncodeCommand::Configure(config));
    let mut frames = frames;
    while frames.len() > 0
        invariant
            frames@.len() <= all.len(),
            out@.len() == 1 + (all.len() - frames@.len()),
            frames@ =~= all.subrange(all.len() - frames@.len(), all.len() as int),
            commands_view(out@) =~= seq![CommandView::Configure(config)] + frames_view(
                all.subrange(0, all.len() - frames@.len()),
            ).map(|i: int, f: (Seq<u8>, u64)| CommandView::Frame(((i as u64), f))),
        decreases frames@.len(),
    {
        let ghost done = all.len() - frames@.len();
        proof {
            assert(frames@[0] == all[done]);
        }
        let ghost out_pre = out@;
        let position = (out.len() - 1) as u64;
        proof {
            assert(position == done as u64);
        }
        let f = frames.remove(0);
        out.push(EncodeCommand::Frame(OutputFrame { position, frame: f }));
        proof {
            assert(out@ =~= out_pre.push(EncodeCommand::Frame(OutputFrame { position, frame: f })));
            assert(commands_view(out@) =~= commands_view(out_pre).push(
                CommandView::Frame((position, f@)),
            ));
            assert(frames_view(all.subrange(0, done + 1)) =~= frames_view(
                all.subrange(0, done),
            ).push(f@));
            assert(frames_view(all.subrange(0, done + 1)).map(
                |i: int, f: (Seq<u8>, u64)| CommandView::Frame(((i as u64), f)),
            ) =~= frames_view(all.subrange(0, done)).map(
                |i: int, f: (Seq<u8>, u64)| CommandView::Frame(((i as u64), f)),
            ).push(CommandView::Frame(((done as u64), f@))));
            assert(frames@ =~= all.subrange(done + 1, all.len() as int));
            assert(commands_view(out@) =~= seq![CommandView::Configure(config)] + frames_view(
                all.subrange(0, done + 1),
            ).map(|i: int, f: (Seq<u8>, u64)| CommandView::Frame(((i as u64), f))));
        }
    }
    out.push(EncodeCommand::End);
    proof {
        assert(all.subrange(0, all.len() as int) =~= all);
        assert(commands_view(out@) =~= session_commands(config, frames_view(all)));
    }
    out
}

/// A condition that aborts an export.
#[derive(Clone, Copy, Debug, PartialEq, Eq, Structural)]
pub enum EncodeError {
    /// A decoded frame's dimensions differed from the configured ones.
    DimensionMismatch {
        /// The configured width.
        expected_width: u32,
        /// The configured height.
        expected_height: u32,
        /// The decoded frame's width.
        actual_width: u64,
        /// The decoded frame's height.
        actual_height: u64,
    },
}

/// Re-validate a decoded frame's dimensions against the configuration: any
/// mismatch is fatal for the export.
pub fn check_frame_dims(config: &OutputConfig, header_width: u64, header_height: u64) -> (r: Result<
    (),
    EncodeError,
>)
    ensures
        r is Ok <==> (header_width == config.width && header_height == config.height),
        r matches Err(e) ==> e == (EncodeError::DimensionMismatch {
            expected_width: config.width,
            expected_height: config.height,
            actual_width: header_width,
            actual_height: header_height,
        }),
{
    if header_width == config.width as u64 && header_height == config.height as u64 {
        Ok(())
    } else {
        Err(
            EncodeError::DimensionMismatch {
                expected_width: config.width,
                expected_height: config.height,
                actual_width: header_width,
                actual_height: header_height,
            },
        )
    }
}

/// The byte length of one decoded frame under the configuration: width times
/// height times the pixel size.
pub open spec fn spec_plane_len(config: OutputConfig) -> nat {
    (config.pixel_format.spec_bytes_per_pixel() * config.width * config.height) as nat
}

/// The byte length of one decoded row under the configuration.
pub open spec fn spec_plane_pitch(config: OutputConfig) -> nat {
    (config.pixel_format.spec_bytes_per_pixel() * config.width) as nat
}

/// The byte length of one decoded row: the pitch handed to the decoder.
pub fn plane_pitch(config: &OutputConfig) -> (r: u64)
    ensures
        r == spec_plane_pitch(*config),
{
    config.pixel_format.bytes_per_pixel() * (config.width as u64)
}

/// The byte length of one decoded frame: the buffer the feeder allocates
/// before decoding into it.
pub fn plane_len(config: &OutputConfig) -> (r: u128)
    ensures
        r == spec_plane_len(*config),
{
    let bpp = config.pixel_format.bytes_per_pixel();
    proof {
        assert((bpp as int) * (config.width as int) * (config.height as int)
            < 0x100000000000000000000000000000000) by (nonlinear_arith)
            requires
                bpp <= 4,
                config.width <= 0xffffffffu32,
                config.height <= 0xffffffffu32,
        ;
    }
    (bpp as u128) * (config.width as u128) * (config.height as u128)
}

/// The feeder's backpressure decision: pause (sleep and poll again) exactly
/// while more decoded frames than the threshold sit unconsumed in the
/// encoder's queue; resume as soon as the backlog is back at or below it.
pub fn feeder_should_pause(queue_depth: usize, threshold: usize) -> (r: bool)
    ensures
        r == (queue_depth > threshold),
{
    queue_depth > threshold
}

} // verus!
