use vstd::prelude::*;

verus! {

/// Pixels per row of one video frame: the frames fill the whole screen.
pub const FRAME_WIDTH: u32 = 160;

/// Pixel rows of one video frame.
pub const FRAME_HEIGHT: u32 = 80;

/// Bytes of one stored frame: a full 160-by-80 RGB565 frame.
pub const FRAME_BYTES: usize = 25600;

/// How many frames one playback shows.  The file stores frames back to
/// back, and the player shows every other one: after blitting a frame
/// it skips the next, so each shown frame stands two frames apart.
pub const FRAMES_TO_SHOW: u32 = 2189;

/// One stored frame holds exactly two bytes for every pixel of the
/// 160-by-80 screen.
pub proof fn frame_bytes_cover_frame()
    ensures
        FRAME_BYTES == 2 * FRAME_WIDTH * FRAME_HEIGHT,
{
}

/// Byte offset in the video file at which the `i`-th shown frame
/// begins: every shown frame is two stored frames past the one before.
pub open spec fn spec_frame_offset(i: int) -> int {
    i * 2 * FRAME_BYTES
}

/// Byte offset of the `i`-th shown frame.
pub fn frame_offset(i: u32) -> (o: u64)
    requires
        i <= FRAMES_TO_SHOW,
    ensures
        o == spec_frame_offset(i as int),
{
    (i as u64) * 51200
}

/// Progress of one playback: how many frames have been shown and where
/// in the file the next read starts.
#[derive(Clone, Copy, PartialEq, Eq, Structural, Debug)]
pub struct Playback {
    pub shown: u32,
    pub cursor: u64,
}

impl Playback {
    /// A playback is well formed when the cursor stands exactly where
    /// the next frame to show begins, and no more frames have been
    /// shown than the file holds.
    pub open spec fn wf(&self) -> bool {
        &&& self.shown <= FRAMES_TO_SHOW
        &&& self.cursor == spec_frame_offset(self.shown as int)
    }

    /// A fresh playback: nothing shown, the cursor at the file's start.
    pub fn begin() -> (p: Playback)
        ensures
            p.wf(),
            p.shown == 0,
            p.cursor == 0,
    {
        Playback { shown: 0, cursor: 0 }
    }

    /// Whether every frame has been shown.
    pub fn done(&self) -> (r: bool)
        ensures
            r == (self.shown == FRAMES_TO_SHOW),
    {
        self.shown == FRAMES_TO_SHOW
    }

    /// Records one shown frame: the cursor moves two stored frames
    /// ahead, one read and one skipped.
    pub fn advance(&mut self)
        requires
            old(self).wf(),
            old(self).shown < FRAMES_TO_SHOW,
        ensures
            final(self).wf(),
            final(self).shown == old(self).shown + 1,
            final(self).cursor == old(self).cursor + 2 * FRAME_BYTES,
    {
        self.shown = self.shown + 1;
        self.cursor = self.cursor + 2 * (FRAME_BYTES as u64);
    }

    /// How many bytes the reader must skip after reading a frame, so
    /// that the next read lands one whole frame further on.
    pub fn skip_after_read(&self) -> (n: u32)
        ensures
            n == FRAME_BYTES,
    {
        FRAME_BYTES as u32
    }
}

/// A finished playback has walked the cursor over every stored byte the
/// schedule touches: two stored frames for each shown one.
pub proof fn finished_playback_cursor(p: Playback)
    requires
        p.wf(),
        p.shown == FRAMES_TO_SHOW,
    ensures
        p.cursor == 112076800,
{
}

} // verus!
