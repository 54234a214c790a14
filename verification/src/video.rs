use vstd::prelude::*;
use vstd::string::StringExecFns;

verus! {

/// The path of a video file, attached to a video component.
#[derive(Debug, Clone)]
pub struct MediaFile {
    pub path: String,
}

impl MediaFile {
    /// A media file at `path`.
    pub fn new(path: &str) -> (m: Self)
        ensures
            m.path@ == path@,
    {
        MediaFile { path: String::from_str(path) }
    }
}

/// What a video component does once its video has ended.
#[allow(non_camel_case_types)]
#[derive(Debug, Clone, Copy, PartialEq, Eq, PartialOrd, Ord, Structural)]
pub enum VideoSettings {
    HIDE_ON_FINISH,
    REPEATING,
    DEFAULT,
}

/// What a video component does after decoding the frames due in a tick.
#[derive(Debug, Clone, Copy, PartialEq, Eq, Structural)]
pub enum PlaybackStep {
    /// Draw nothing this tick.
    Hide,
    /// Start the video over, then draw whatever frame is current.
    Restart,
    /// Draw the current frame.
    Show,
}

/// The step a video with settings `settings` takes once the decoder has (or has not)
/// reached the end of the stream.
pub open spec fn spec_playback_step(settings: VideoSettings, ended: bool) -> PlaybackStep {
    if ended && settings == VideoSettings::HIDE_ON_FINISH {
        PlaybackStep::Hide
    } else if ended && settings == VideoSettings::REPEATING {
        PlaybackStep::Restart
    } else {
        PlaybackStep::Show
    }
}

/// A video still playing is always drawn; an ended one is hidden exactly when set to hide
/// on finish, restarted exactly when set to repeat, and otherwise keeps showing its last
/// frame.
pub proof fn law_playback_steps(settings: VideoSettings, ended: bool)
    ensures
        !ended ==> spec_playback_step(settings, ended) == PlaybackStep::Show,
        spec_playback_step(settings, ended) == PlaybackStep::Hide <==> (ended && settings
            == VideoSettings::HIDE_ON_FINISH),
        spec_playback_step(settings, ended) == PlaybackStep::Restart <==> (ended && settings
            == VideoSettings::REPEATING),
        spec_playback_step(settings, ended) == PlaybackStep::Show <==> (!ended || settings
            == VideoSettings::DEFAULT),
{
}

/// The step a video with settings `settings` takes when its decoder has `ended`.
pub fn playback_step(settings: VideoSettings, ended: bool) -> (step: PlaybackStep)
    ensures
        step == spec_playback_step(settings, ended),
        step == PlaybackStep::Hide <==> (ended && settings == VideoSettings::HIDE_ON_FINISH),
        step == PlaybackStep::Restart <==> (ended && settings == VideoSettings::REPEATING),
        step == PlaybackStep::Show <==> (!ended || settings == VideoSettings::DEFAULT),
{
    if ended && settings == VideoSettings::HIDE_ON_FINISH {
        PlaybackStep::Hide
    } else if ended && settings == VideoSettings::REPEATING {
        PlaybackStep::Restart
    } else {
        PlaybackStep::Show
    }
}

/// The first `rows` rows of `row_len` bytes each, taken from a plane whose rows start
/// `linesize` bytes apart, laid out back to back.
pub open spec fn packed_rows(data: Seq<u8>, linesize: int, row_len: int, rows: nat) -> Seq<u8>
    decreases rows,
{
    if rows == 0 {
        Seq::empty()
    } else {
        packed_rows(data, linesize, row_len, (rows - 1) as nat) + data.subrange(
            (rows - 1) * linesize,
            (rows - 1) * linesize + row_len,
        )
    }
}

proof fn lemma_packed_rows_len(data: Seq<u8>, linesize: int, row_len: int, rows: nat)
    requires
        0 <= row_len,
        0 <= linesize,
        rows > 0 ==> (rows - 1) * linesize + row_len <= data.len(),
    ensures
        packed_rows(data, linesize, row_len, rows).len() == rows * row_len,
    decreases rows,
{
    if rows > 0 {
        if rows > 1 {
            assert((rows - 2) * linesize + row_len <= (rows - 1) * linesize + row_len) by (nonlinear_arith)
                requires
                    rows >= 2,
                    linesize >= 0,
            ;
        }
        lemma_packed_rows_len(data, linesize, row_len, (rows - 1) as nat);
        assert((rows - 1) * row_len + row_len == rows * row_len) by (nonlinear_arith);
    }
}

/// The `len` bytes of row `y` of a buffer whose rows start `stride` bytes apart.
pub open spec fn row_at(s: Seq<u8>, stride: int, len: int, y: int) -> Seq<u8> {
    s.subrange(y * stride, y * stride + len)
}

/// Byte `x` of row `y` of the packed rows is byte `x` of row `y` of the plane, which starts
/// `y * linesize` bytes into it: rows are copied whole, in order, without padding.
pub proof fn law_packed_byte(data: Seq<u8>, linesize: int, row_len: int, rows: nat, y: int, x: int)
    requires
        0 <= linesize,
        0 <= row_len,
        rows > 0 ==> (rows - 1) * linesize + row_len <= data.len(),
        0 <= y < rows,
        0 <= x < row_len,
    ensures
        packed_rows(data, linesize, row_len, rows).len() == rows * row_len,
        packed_rows(data, linesize, row_len, rows)[y * row_len + x] == data[y * linesize + x],
    decreases rows,
{
    lemma_packed_rows_len(data, linesize, row_len, rows);
    if rows > 1 {
        assert((rows - 2) * linesize + row_len <= (rows - 1) * linesize + row_len) by (nonlinear_arith)
            requires
                rows >= 2,
                linesize >= 0,
        ;
    }
    lemma_packed_rows_len(data, linesize, row_len, (rows - 1) as nat);
    if y < rows - 1 {
        law_packed_byte(data, linesize, row_len, (rows - 1) as nat, y, x);
        assert(y * row_len + x < (rows - 1) * row_len) by (nonlinear_arith)
            requires
                y < rows - 1,
                0 <= x < row_len,
                y >= 0,
        ;
    } else {
        assert(y * row_len == (rows - 1) * row_len);
        assert(y * linesize == (rows - 1) * linesize);
    }
}

/// Packs the visible part of an RGBA image plane, `height` rows of `width` pixels whose
/// rows start `linesize` bytes apart in `data`, into a buffer without row padding.
pub fn pack_rgba_rows(data: &[u8], linesize: usize, width: u32, height: u32) -> (out: Vec<u8>)
    requires
        width * height * 4 <= u32::MAX,
        height > 0 ==> (height - 1) * linesize + width * 4 <= data@.len(),
    ensures
        out@ == packed_rows(data@, linesize as int, width * 4, height as nat),
        out@.len() == width * height * 4,
        forall|y: int|
            0 <= y < height ==> #[trigger] row_at(out@, width * 4, width * 4, y) == row_at(
                data@,
                linesize as int,
                width * 4,
                y,
            ),
{
    let mut out: Vec<u8> = Vec::new();
    if height == 0 {
        return out;
    }
    assert(width * 4 <= width * height * 4) by (nonlinear_arith)
        requires
            height >= 1,
    ;
    let row_len: usize = (width * 4) as usize;
    let data_len: usize = data.len();
    let mut y: u32 = 0;
    while y < height
        invariant
            y <= height,
            height > 0,
            row_len == width * 4,
            data_len == data@.len(),
            height > 0 ==> (height - 1) * linesize + row_len <= data@.len(),
            out@ == packed_rows(data@, linesize as int, row_len as int, y as nat),
        decreases height - y,
    {
        assert(y * linesize + row_len <= data@.len()) by (nonlinear_arith)
            requires
                y < height,
                (height - 1) * linesize + row_len <= data@.len(),
        ;
        let offset: usize = y as usize * linesize;
        let mut x: usize = 0;
        while x < row_len
            invariant
                x <= row_len,
                offset == y * linesize,
                offset + row_len <= data@.len(),
                data_len == data@.len(),
                out@ == packed_rows(data@, linesize as int, row_len as int, y as nat) + data@.subrange(
                    offset as int,
                    offset + x,
                ),
            decreases row_len - x,
        {
            out.push(data[offset + x]);
            assert(data@.subrange(offset as int, offset + x + 1) =~= data@.subrange(offset as int, offset + x).push(
                data@[offset + x],
            ));
            x = x + 1;
        }
        y = y + 1;
    }
    proof {
        lemma_packed_rows_len(data@, linesize as int, row_len as int, height as nat);
        assert(height * row_len == width * height * 4) by (nonlinear_arith)
            requires
                row_len == width * 4,
        ;
        assert forall|y: int| 0 <= y < height implies #[trigger] row_at(out@, row_len as int, row_len as int, y)
            == row_at(data@, linesize as int, row_len as int, y) by {
            assert(y * row_len + row_len <= height * row_len) by (nonlinear_arith)
                requires
                    y < height,
                    row_len >= 0,
            ;
            assert(y * linesize + row_len <= data@.len()) by (nonlinear_arith)
                requires
                    0 <= y < height,
                    (height - 1) * linesize + row_len <= data@.len(),
            ;
            assert forall|x: int| 0 <= x < row_len implies row_at(out@, row_len as int, row_len as int, y)[x]
                == row_at(data@, linesize as int, row_len as int, y)[x] by {
                law_packed_byte(data@, linesize as int, row_len as int, height as nat, y, x);
            }
            assert(row_at(out@, row_len as int, row_len as int, y) =~= row_at(data@, linesize as int, row_len as int, y));
        }
    }
    out
}

} // verus!
