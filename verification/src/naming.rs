//! Names of export artifacts: `frame_<index>.jpg` for each drained frame, and
//! `rolling_buffer_<date-time>` (directory) or `rolling_buffer_<date-time>.mp4`
//! (video) derived from the local civil time. Names are built as ASCII bytes
//! with exactly specified digits and padding.
use vstd::prelude::*;

verus! {

/// The ASCII decimal digits of `n`, most significant first, no leading zeros.
pub open spec fn dec_digits(n: nat) -> Seq<u8>
    decreases n,
{
    if n < 10 {
        seq![(0x30 + n) as u8]
    } else {
        dec_digits(n / 10).push((0x30 + n % 10) as u8)
    }
}

/// `n` as exactly two ASCII digits, zero padded.
pub open spec fn two_digits(n: nat) -> Seq<u8>
    recommends
        n < 100,
{
    seq![(0x30 + n / 10) as u8, (0x30 + n % 10) as u8]
}

/// `n` as exactly four ASCII digits, zero padded.
pub open spec fn four_digits(n: nat) -> Seq<u8>
    recommends
        n < 10000,
{
    two_digits(n / 100) + two_digits(n % 100)
}

/// Append the decimal digits of `n`.
pub fn push_decimal(out: &mut Vec<u8>, n: u64)
    ensures
        final(out)@ == old(out)@ + dec_digits(n as nat),
    decreases n,
{
    if n < 10 {
        out.push(0x30 + (n as u8));
        proof {
            assert(out@ =~= old(out)@ + dec_digits(n as nat));
        }
    } else {
        push_decimal(out, n / 10);
        let ghost mid = out@;
        out.push(0x30 + ((n % 10) as u8));
        proof {
            assert(out@ =~= mid.push((0x30 + (n as nat) % 10) as u8));
            assert(out@ =~= old(out)@ + dec_digits(n as nat));
        }
    }
}

/// Append `n` as two zero-padded digits.
pub fn push_two_digits(out: &mut Vec<u8>, n: u64)
    requires
        n < 100,
    ensures
        final(out)@ == old(out)@ + two_digits(n as nat),
{
    out.push(0x30 + ((n / 10) as u8));
    out.push(0x30 + ((n % 10) as u8));
    proof {
        assert(out@ =~= old(out)@ + two_digits(n as nat));
    }
}

/// Append `n` as four zero-padded digits.
pub fn push_four_digits(out: &mut Vec<u8>, n: u64)
    requires
        n < 10000,
    ensures
        final(out)@ == old(out)@ + four_digits(n as nat),
{
    push_two_digits(out, n / 100);
    push_two_digits(out, n % 100);
    proof {
        assert(out@ =~= old(out)@ + four_digits(n as nat));
    }
}

/// The name of the `index`-th exported image: `frame_<index>.jpg`.
pub open spec fn frame_file_name_spec(index: nat) -> Seq<u8> {
    seq![0x66u8, 0x72u8, 0x61u8, 0x6du8, 0x65u8, 0x5fu8] + dec_digits(index) + seq![
        0x2eu8,
        0x6au8,
        0x70u8,
        0x67u8,
    ]
}

/// The name of the `index`-th exported image, as ASCII bytes:
/// `frame_<index>.jpg`, indices counted from zero in drain order.
pub fn frame_file_name(index: u64) -> (r: Vec<u8>)
    ensures
        r@ == frame_file_name_spec(index as nat),
{
    let mut out: Vec<u8> = Vec::new();
    out.push(0x66);
    out.push(0x72);
    out.push(0x61);
    out.push(0x6d);
    out.push(0x65);
    out.push(0x5f);
    proof {
        assert(out@ =~= seq![0x66u8, 0x72u8, 0x61u8, 0x6du8, 0x65u8, 0x5fu8]);
    }
    push_decimal(&mut out, index);
    out.push(0x2e);
    out.push(0x6a);
    out.push(0x70);
    out.push(0x67);
    proof {
        assert(out@ =~= frame_file_name_spec(index as nat));
    }
    out
}

/// A civil date and time, held as plain values so that names derived from it
/// are exactly specified.
#[derive(Clone, Copy, Debug, PartialEq, Eq, Structural)]
pub struct Timestamp {
    /// Calendar year, 0 through 9999.
    pub year: u32,
    /// Calendar month, 1 through 12.
    pub month: u32,
    /// Day of the month, 1 through 31.
    pub day: u32,
    /// Hour of the day, 0 through 23.
    pub hour: u32,
    /// Minute, 0 through 59.
    pub minute: u32,
    /// Second, 0 through 59.
    pub second: u32,
}

impl Timestamp {
    /// Every field lies in its calendar range.
    pub open spec fn wf(&self) -> bool {
        &&& self.year <= 9999
        &&& 1 <= self.month <= 12
        &&& 1 <= self.day <= 31
        &&& self.hour <= 23
        &&& self.minute <= 59
        &&& self.second <= 59
    }
}

/// The timestamp tag of export names: `YYYYMMDD-HH_MM_SS`.
pub open spec fn timestamp_tag_spec(ts: Timestamp) -> Seq<u8> {
    four_digits(ts.year as nat) + two_digits(ts.month as nat) + two_digits(ts.day as nat) + seq![
        0x2du8,
    ] + two_digits(ts.hour as nat) + seq![0x5fu8] + two_digits(ts.minute as nat) + seq![0x5fu8]
        + two_digits(ts.second as nat)
}

/// The common stem of export names: `rolling_buffer_<YYYYMMDD-HH_MM_SS>`.
pub open spec fn export_stem_spec(ts: Timestamp) -> Seq<u8> {
    seq![
        0x72u8,
        0x6fu8,
        0x6cu8,
        0x6cu8,
        0x69u8,
        0x6eu8,
        0x67u8,
        0x5fu8,
        0x62u8,
        0x75u8,
        0x66u8,
        0x66u8,
        0x65u8,
        0x72u8,
        0x5fu8,
    ] + timestamp_tag_spec(ts)
}

/// The name of the directory an image-sequence export writes into.
pub open spec fn export_dir_name_spec(ts: Timestamp) -> Seq<u8> {
    export_stem_spec(ts)
}

/// The name of the file a video export writes: the stem plus `.mp4`.
pub open spec fn export_video_name_spec(ts: Timestamp) -> Seq<u8> {
    export_stem_spec(ts) + seq![0x2eu8, 0x6du8, 0x70u8, 0x34u8]
}

/// The directory name of an image-sequence export at the given time, as ASCII
/// bytes: `rolling_buffer_<YYYYMMDD-HH_MM_SS>`.
pub fn export_dir_name(ts: &Timestamp) -> (r: Vec<u8>)
    requires
        ts.wf(),
    ensures
        r@ == export_dir_name_spec(*ts),
{
    let mut out: Vec<u8> = Vec::new();
    out.push(0x72);
    out.push(0x6f);
    out.push(0x6c);
    out.push(0x6c);
    out.push(0x69);
    out.push(0x6e);
    out.push(0x67);
    out.push(0x5f);
    out.push(0x62);
    out.push(0x75);
    out.push(0x66);
    out.push(0x66);
    out.push(0x65);
    out.push(0x72);
    out.push(0x5f);
    proof {
        assert(out@ =~= seq![
            0x72u8,
            0x6fu8,
            0x6cu8,
            0x6cu8,
            0x69u8,
            0x6eu8,
            0x67u8,
            0x5fu8,
            0x62u8,
            0x75u8,
            0x66u8,
            0x66u8,
            0x65u8,
            0x72u8,
            0x5fu8,
        ]);
    }
    push_four_digits(&mut out, ts.year as u64);
    push_two_digits(&mut out, ts.month as u64);
    push_two_digits(&mut out, ts.day as u64);
    out.push(0x2d);
    proof {
        assert(out@ =~= out@.drop_last() + seq![0x2du8]);
    }
    push_two_digits(&mut out, ts.hour as u64);
    out.push(0x5f);
    proof {
        assert(out@ =~= out@.drop_last() + seq![0x5fu8]);
    }
    push_two_digits(&mut out, ts.minute as u64);
    out.push(0x5f);
    proof {
        assert(out@ =~= out@.drop_last() + seq![0x5fu8]);
    }
    push_two_digits(&mut out, ts.second as u64);
    proof {
        assert(out@ =~= export_dir_name_spec(*ts));
    }
    out
}

/// The file name of a video export at the given time, as ASCII bytes:
/// `rolling_buffer_<YYYYMMDD-HH_MM_SS>.mp4`.
pub fn export_video_name(ts: &Timestamp) -> (r: Vec<u8>)
    requires
        ts.wf(),
    ensures
        r@ == export_video_name_spec(*ts),
{
    let mut out = export_dir_name(ts);
    out.push(0x2e);
    out.push(0x6d);
    out.push(0x70);
    out.push(0x34);
    proof {
        assert(out@ =~= export_video_name_spec(*ts));
    }
    out
}

/// Relies on chrono::Local::now and chrono's Datelike and Timelike accessors:
/// the current local civil time as year, month (1-12), day (1-31), hour
/// (0-23), minute (0-59) and second (0-59), the ranges chrono documents.
#[verifier::external_body]
fn local_now_parts() -> (r: (i32, u32, u32, u32, u32, u32))
    ensures
        1 <= r.1 <= 12,
        1 <= r.2 <= 31,
        r.3 <= 23,
        r.4 <= 59,
        r.5 <= 59,
{
    let now = chrono::Local::now();
    (
        chrono::Datelike::year(&now),
        chrono::Datelike::month(&now),
        chrono::Datelike::day(&now),
        chrono::Timelike::hour(&now),
        chrono::Timelike::minute(&now),
        chrono::Timelike::second(&now),
    )
}

/// Build the timestamp for the given clock parts: accepted exactly when the
/// year fits four digits, every field carried over unchanged.
pub fn timestamp_from_parts(
    year: i32,
    month: u32,
    day: u32,
    hour: u32,
    minute: u32,
    second: u32,
) -> (r: Option<Timestamp>)
    requires
        1 <= month <= 12,
        1 <= day <= 31,
        hour <= 23,
        minute <= 59,
        second <= 59,
    ensures
        r is Some <==> 0 <= year <= 9999,
        r matches Some(ts) ==> ts == (Timestamp {
            year: year as u32,
            month,
            day,
            hour,
            minute,
            second,
        }),
{
    if 0 <= year && year <= 9999 {
        Some(Timestamp { year: year as u32, month, day, hour, minute, second })
    } else {
        None
    }
}

/// The current local time as a well-formed timestamp, or None for a year that
/// four digits cannot name.
pub fn local_timestamp() -> (r: Option<Timestamp>)
    ensures
        r matches Some(ts) ==> ts.wf(),
{
    let (year, month, day, hour, minute, second) = local_now_parts();
    timestamp_from_parts(year, month, day, hour, minute, second)
}

} // verus!
