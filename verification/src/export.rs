//! The export coordinator's planning: after a trigger drains the buffer, turn
//! the drained frames either into the list of image files to write (name and
//! bytes, in drain order) or into the command sequence of one encode session.
use vstd::prelude::*;

use crate::encode::EncodeCommand;
use crate::encode::build_commands;
use crate::encode::commands_view;
use crate::encode::session_commands;
use crate::frame::CompressedFrame;
use crate::frame::OutputConfig;
use crate::frame::frames_view;
use crate::naming::frame_file_name;
use crate::naming::frame_file_name_spec;

verus! {

/// A condition that stops an export before it starts.
#[derive(Clone, Copy, Debug, PartialEq, Eq, Structural)]
pub enum ExportError {
    /// A video export was requested before any frame was captured, so no
    /// output configuration exists. Reported to the user, not a crash.
    NoConfigCaptured,
}

/// Plan an image-sequence export: for each drained frame, in order, the file
/// name `frame_<index>.jpg` (indices from zero) paired with the frame's bytes.
pub fn plan_image_export(frames: Vec<CompressedFrame>) -> (r: Vec<(Vec<u8>, Vec<u8>)>)
    ensures
        r@.len() == frames@.len(),
        forall|i: int|
            0 <= i < r@.len() ==> #[trigger] r@[i].0@ == frame_file_name_spec(i as nat)
                && r@[i].1@ == frames@[i]@.0,
{
    let ghost all = frames@;
    let mut out: Vec<(Vec<u8>, Vec<u8>)> = Vec::new();
    let mut frames = frames;
    while frames.len() > 0
        invariant
            out@.len() + frames@.len() == all.len(),
            frames@ =~= all.subrange(out@.len() as int, all.len() as int),
            forall|i: int|
                0 <= i < out@.len() ==> #[trigger] out@[i].0@ == frame_file_name_spec(i as nat)
                    && out@[i].1@ == all[i]@.0,
        decreases frames@.len(),
    {
        let ghost done = out@.len() as int;
        proof {
            assert(frames@[0] == all[done]);
        }
        let index = out.len();
        let f = frames.remove(0);
        let name = frame_file_name(index as u64);
        out.push((name, f.data));
        proof {
            assert(frames@ =~= all.subrange(done + 1, all.len() as int));
        }
    }
    out
}

/// Plan a video export: requires the configuration captured from the first
/// frame; without one the export is refused. With one, the result is the
/// session's full command sequence over the drained frames.
pub fn video_export_commands(config: Option<OutputConfig>, frames: Vec<CompressedFrame>) -> (r:
    Result<Vec<EncodeCommand>, ExportError>)
    ensures
        r is Ok <==> config is Some,
        match r {
            Ok(cmds) => (config matches Some(c) && commands_view(cmds@) == session_commands(
                c,
                frames_view(frames@),
            )),
            Err(e) => e == ExportError::NoConfigCaptured,
        },
{
    match config {
        Some(c) => Ok(build_commands(c, frames)),
        None => Err(ExportError::NoConfigCaptured),
    }
}

} // verus!
