//! Handling of captured frames: which frames pass the frame-rate limit, how
//! a mapped texture is packed into a frame buffer, and its timestamp.
use vstd::prelude::*;

use crate::video::windows_streaming_settings::PixelFormat;

verus! {

pub open spec fn spec_bytes_per_pixel(format: PixelFormat) -> nat {
    match format {
        PixelFormat::B8G8R8A8UIntNormalized => 4,
        PixelFormat::R16G16B16A16Float => 8,
        PixelFormat::Other(_) => 0,
    }
}

/// Bytes per pixel of the two supported capture formats; no other format
/// can be captured.
pub fn bytes_per_pixel(format: PixelFormat) -> (n: usize)
    requires
        !(format is Other),
    ensures
        n == spec_bytes_per_pixel(format),
{
    match format {
        PixelFormat::B8G8R8A8UIntNormalized => 4,
        PixelFormat::R16G16B16A16Float => 8,
        PixelFormat::Other(_) => vstd::pervasive::unreached(),
    }
}

/// Row size and total size in bytes of a packed frame.
pub fn frame_sizes(width: usize, height: usize, format: PixelFormat) -> (sizes: (usize, usize))
    requires
        !(format is Other),
        width * spec_bytes_per_pixel(format) <= usize::MAX,
        width * spec_bytes_per_pixel(format) * height <= usize::MAX,
    ensures
        sizes.0 == width * spec_bytes_per_pixel(format),
        sizes.1 == width * spec_bytes_per_pixel(format) * height,
{
    let bpp = bytes_per_pixel(format);
    let row_size = width * bpp;
    (row_size, row_size * height)
}

/// Row `r` of a packed frame.
pub open spec fn packed_row(dst: Seq<u8>, row_size: nat, r: int) -> Seq<u8> {
    dst.subrange(r * row_size, r * row_size + row_size)
}

/// Row `r` of a mapped texture whose rows are `pitch` bytes apart.
pub open spec fn source_row(src: Seq<u8>, pitch: nat, row_size: nat, r: int) -> Seq<u8> {
    src.subrange(r * pitch, r * pitch + row_size)
}

/// Copies `height` rows of `row_size` bytes out of a texture mapping whose
/// rows start `pitch` bytes apart, into a tightly packed frame.
pub fn pack_rows(src: &[u8], pitch: usize, row_size: usize, height: usize) -> (dst: Vec<u8>)
    requires
        row_size * height <= usize::MAX,
        height > 0 ==> (height - 1) * pitch + row_size <= src@.len(),
    ensures
        dst@.len() == row_size * height,
        forall|r: int|
            0 <= r < height ==> #[trigger] packed_row(dst@, row_size as nat, r) == source_row(
                src@,
                pitch as nat,
                row_size as nat,
                r,
            ),
{
    let mut dst: Vec<u8> = Vec::new();
    let mut row: usize = 0;
    while row < height
        invariant
            row <= height,
            row_size * height <= usize::MAX,
            height > 0 ==> (height - 1) * pitch + row_size <= src@.len(),
            dst@.len() == row * row_size,
            forall|r: int|
                0 <= r < row ==> #[trigger] packed_row(dst@, row_size as nat, r) == source_row(
                    src@,
                    pitch as nat,
                    row_size as nat,
                    r,
                ),
        decreases height - row,
    {
        assert(row * pitch + row_size <= src@.len()) by (nonlinear_arith)
            requires
                row < height,
                (height - 1) * pitch + row_size <= src@.len(),
        ;
        assert((row + 1) * row_size <= row_size * height && (row + 1) * row_size == row * row_size
            + row_size) by (nonlinear_arith)
            requires
                row < height,
        ;
        let src_len = src.len();
        assert(src_len == src@.len());
        let start = row * pitch;
        let line = vstd::slice::slice_subrange(src, start, start + row_size);
        let ghost old_dst = dst@;
        dst.extend_from_slice(line);
        proof {
            assert(dst@ =~= old_dst + line@);
            assert forall|r: int| 0 <= r < row + 1 implies #[trigger] packed_row(
                dst@,
                row_size as nat,
                r,
            ) == source_row(src@, pitch as nat, row_size as nat, r) by {
                if r < row {
                    assert(r * row_size + row_size <= row * row_size) by (nonlinear_arith)
                        requires
                            0 <= r < row,
                    ;
                    assert(0 <= r * row_size) by (nonlinear_arith)
                        requires
                            0 <= r,
                    ;
                    assert(packed_row(dst@, row_size as nat, r) =~= packed_row(
                        old_dst,
                        row_size as nat,
                        r,
                    ));
                } else {
                    assert(packed_row(dst@, row_size as nat, r) =~= line@);
                }
            }
        }
        row = row + 1;
    }
    assert(row * row_size == row_size * height) by (nonlinear_arith)
        requires
            row == height,
    ;
    dst
}

/// Remembers when the last frame was let through, to hold frames to the
/// configured rate.
pub struct FrameThrottle {
    pub last_nanos: u64,
}

pub open spec fn spec_let_through(last: u64, now: u64, interval: u64) -> (bool, u64) {
    if now - last < interval {
        (false, last)
    } else {
        (true, now)
    }
}

impl FrameThrottle {
    /// A throttle that lets the first frame through.
    pub fn new() -> (t: Self)
        ensures
            t.last_nanos == 0,
    {
        FrameThrottle { last_nanos: 0 }
    }

    /// Whether a frame arriving at `now` (nanoseconds) is let through: it is
    /// when at least `interval` nanoseconds passed since the last frame let
    /// through, and then it becomes the last one. Time does not run
    /// backwards: `now` is not before the last frame.
    pub fn let_through(&mut self, now: u64, interval: u64) -> (pass: bool)
        requires
            now >= old(self).last_nanos,
        ensures
            (pass, final(self).last_nanos) == spec_let_through(old(self).last_nanos, now, interval),
            now - old(self).last_nanos >= interval ==> pass && final(self).last_nanos == now,
            now - old(self).last_nanos < interval ==> !pass && final(self).last_nanos == old(
                self,
            ).last_nanos,
    {
        if now - self.last_nanos < interval {
            false
        } else {
            self.last_nanos = now;
            true
        }
    }
}

/// Any two frames that the throttle lets through one after the other, with
/// frames turned away in between or not, are at least `interval` apart.
pub proof fn law_passed_frames_are_spaced(
    last: u64,
    t1: u64,
    rejected: Seq<u64>,
    t2: u64,
    interval: u64,
)
    requires
        t1 >= last,
        spec_let_through(last, t1, interval).0,
        forall|i: int| 0 <= i < rejected.len() ==> #[trigger] rejected[i] >= t1 && !spec_let_through(t1, rejected[i], interval).0,
        t2 >= t1,
        spec_let_through(t1, t2, interval).0,
    ensures
        t2 - t1 >= interval,
        spec_let_through(last, t1, interval).1 == t1,
{
}

/// A frame that comes at least `interval` nanoseconds after the last frame
/// let through is let through and becomes the last one, however long the
/// gap; a frame that comes sooner is turned away and changes nothing.
pub proof fn law_frame_after_interval_passes(last: u64, now: u64, interval: u64)
    requires
        now >= last,
    ensures
        now - last >= interval ==> spec_let_through(last, now, interval) == (true, now),
        now - last < interval ==> spec_let_through(last, now, interval) == (false, last),
{
}

/// The presentation time in nanoseconds of a frame stamped in units of 100
/// nanoseconds.
pub fn pts_nanos(ticks: i64) -> (nanos: u64)
    requires
        0 <= ticks,
        ticks * 100 <= u64::MAX,
    ensures
        nanos == ticks * 100,
{
    (ticks as u64) * 100
}

} // verus!
