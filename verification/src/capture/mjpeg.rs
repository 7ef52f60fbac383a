//! Framing of an MJPEG byte stream: JPEG images are cut out between their
//! start-of-image and end-of-image markers.

use vstd::prelude::*;
use vstd::slice::slice_subrange;

verus! {

/// First byte of both JPEG markers.
pub const MARKER: u8 = 0xFF;

/// Second byte of the start-of-image marker (`FF D8`).
pub const SOI: u8 = 0xD8;

/// Second byte of the end-of-image marker (`FF D9`).
pub const EOI: u8 = 0xD9;

/// Largest number of bytes taken from the stream in one read.
pub const READ_CHUNK: usize = 4096;

/// Largest number of bytes buffered while looking for a frame.
pub const MAX_FRAME: usize = 1048576;

/// Position of the first occurrence of the two-byte marker `b0 b1` in `s` at or after `i`.
pub open spec fn first_marker_from(s: Seq<u8>, b0: u8, b1: u8, i: int) -> Option<int>
    decreases s.len() - i,
{
    if i < 0 || i + 1 >= s.len() {
        None
    } else if s[i] == b0 && s[i + 1] == b1 {
        Some(i)
    } else {
        first_marker_from(s, b0, b1, i + 1)
    }
}

/// Position of the first occurrence of the two-byte marker `b0 b1` in `s`.
pub open spec fn first_marker(s: Seq<u8>, b0: u8, b1: u8) -> Option<int> {
    first_marker_from(s, b0, b1, 0)
}

/// The next complete JPEG in `buf`, and what is left of `buf` after it: the image
/// runs from the first start-of-image marker through the first end-of-image
/// marker that follows it, markers included; bytes before it are discarded.
pub open spec fn next_jpeg(buf: Seq<u8>) -> Option<(Seq<u8>, Seq<u8>)> {
    match first_marker(buf, MARKER, SOI) {
        None => None,
        Some(start) => match first_marker(buf.skip(start + 2), MARKER, EOI) {
            None => None,
            Some(e) => {
                let end = start + 2 + e + 2;
                Some((buf.subrange(start, end), buf.skip(end)))
            },
        },
    }
}

proof fn lemma_first_marker_from_bounds(s: Seq<u8>, b0: u8, b1: u8, i: int)
    ensures
        first_marker_from(s, b0, b1, i) matches Some(j) ==> i <= j && j + 1 < s.len() && s[j] == b0
            && s[j + 1] == b1,
    decreases s.len() - i,
{
    if !(i < 0 || i + 1 >= s.len()) && !(s[i] == b0 && s[i + 1] == b1) {
        lemma_first_marker_from_bounds(s, b0, b1, i + 1);
    }
}

/// A frame cut out of the buffer is a complete JPEG: it starts with the
/// start-of-image marker and ends with the end-of-image marker; the frame and
/// what is left after it are exactly the buffer from the frame's start on.
pub proof fn lemma_next_jpeg_is_framed(buf: Seq<u8>)
    ensures
        next_jpeg(buf) matches Some((frame, rest)) ==> {
            &&& frame.len() >= 4
            &&& frame[0] == MARKER && frame[1] == SOI
            &&& frame[frame.len() - 2] == MARKER && frame[frame.len() - 1] == EOI
            &&& frame + rest == buf.skip(buf.len() - frame.len() - rest.len())
        },
{
    lemma_first_marker_from_bounds(buf, MARKER, SOI, 0);
    if let Some(start) = first_marker(buf, MARKER, SOI) {
        let tail = buf.skip(start + 2);
        lemma_first_marker_from_bounds(tail, MARKER, EOI, 0);
        if let Some(e) = first_marker(tail, MARKER, EOI) {
            let end = start + 2 + e + 2;
            let frame = buf.subrange(start, end);
            let rest = buf.skip(end);
            assert(frame[frame.len() - 2] == tail[e]);
            assert(frame + rest =~= buf.skip(start));
        }
    }
}

/// Finds the first occurrence of the two-byte `needle` in `haystack`.
pub fn find(haystack: &[u8], needle: &[u8; 2]) -> (r: Option<usize>)
    ensures
        match r {
            Some(i) => first_marker(haystack@, needle@[0], needle@[1]) == Some(i as int),
            None => first_marker(haystack@, needle@[0], needle@[1]) is None,
        },
{
    let n = haystack.len();
    let b0 = needle[0];
    let b1 = needle[1];
    if n < 2 {
        return None;
    }
    let mut i: usize = 0;
    while i < n - 1
        invariant
            n == haystack@.len(),
            n >= 2,
            b0 == needle@[0],
            b1 == needle@[1],
            first_marker(haystack@, b0, b1) == first_marker_from(haystack@, b0, b1, i as int),
        decreases n - i,
    {
        if haystack[i] == b0 && haystack[i + 1] == b1 {
            return Some(i);
        }
        i = i + 1;
    }
    None
}

/// Pulls JPEG frames out of a byte stream by scanning for their markers.
///
/// The stream itself is read by the caller, which hands each chunk to
/// [`JpegFrames::feed`] and asks [`JpegFrames::step`] what to do next.
pub struct JpegFrames {
    buf: Vec<u8>,
    eof: bool,
}

/// The mathematical value of a [`JpegFrames`]: the buffered bytes and whether
/// the stream has ended.
pub struct JpegFramesView {
    pub buf: Seq<u8>,
    pub eof: bool,
}

/// What the reader of a stream does next.
pub enum FrameStep {
    /// A complete JPEG, markers included.
    Frame(Vec<u8>),
    /// The stream has ended and no complete frame is left.
    End,
    /// More bytes are needed: read a chunk and [`JpegFrames::feed`] it.
    NeedData,
}

impl View for JpegFrames {
    type V = JpegFramesView;

    closed spec fn view(&self) -> JpegFramesView {
        JpegFramesView { buf: self.buf@, eof: self.eof }
    }
}

impl JpegFrames {
    /// A framer for a stream that has not delivered any bytes yet.
    pub fn new() -> (r: JpegFrames)
        ensures
            r@.buf == Seq::<u8>::empty(),
            !r@.eof,
    {
        JpegFrames { buf: Vec::new(), eof: false }
    }

    /// Cuts the next complete JPEG off the front of the buffer, discarding any
    /// bytes before it; leaves the buffer as it is when it holds no complete JPEG.
    pub fn extract_frame(&mut self) -> (r: Option<Vec<u8>>)
        ensures
            final(self)@.eof == old(self)@.eof,
            final(self)@.buf.len() <= old(self)@.buf.len(),
            match next_jpeg(old(self)@.buf) {
                Some((frame, rest)) => r matches Some(f) && f@ == frame && final(self)@.buf == rest,
                None => r is None && final(self)@.buf == old(self)@.buf,
            },
    {
        let soi: [u8; 2] = [MARKER, SOI];
        let eoi: [u8; 2] = [MARKER, EOI];
        let ghost old_buf = self.buf@;
        assert(soi@[0] == MARKER && soi@[1] == SOI);
        assert(eoi@[0] == MARKER && eoi@[1] == EOI);
        let start = match find(self.buf.as_slice(), &soi) {
            Some(s) => s,
            None => {
                return None;
            },
        };
        proof {
            lemma_first_marker_from_bounds(old_buf, MARKER, SOI, 0);
        }
        let blen = self.buf.len();
        let after = slice_subrange(self.buf.as_slice(), start + 2, blen);
        let e = match find(after, &eoi) {
            Some(e) => e,
            None => {
                return None;
            },
        };
        proof {
            lemma_first_marker_from_bounds(old_buf.skip(start + 2), MARKER, EOI, 0);
        }
        let end = start + 2 + e + 2;
        let rest = self.buf.split_off(end);
        let frame = self.buf.split_off(start);
        self.buf = rest;
        assert(frame@ =~= old_buf.subrange(start as int, end as int));
        assert(self.buf@ =~= old_buf.skip(end as int));
        Some(frame)
    }

    /// Takes one chunk read from the stream; an empty chunk marks its end.
    ///
    /// When the buffer grows past [`MAX_FRAME`] bytes without yielding a frame,
    /// what it holds is garbage between frames and is dropped.
    pub fn feed(&mut self, chunk: &[u8])
        requires
            chunk@.len() <= READ_CHUNK,
        ensures
            chunk@.len() == 0 ==> final(self)@ == (JpegFramesView { buf: old(self)@.buf, eof: true }),
            chunk@.len() > 0 ==> final(self)@.eof == old(self)@.eof && final(self)@.buf == if old(
                self,
            )@.buf.len() + chunk@.len() > MAX_FRAME {
                Seq::<u8>::empty()
            } else {
                old(self)@.buf + chunk@
            },
            chunk@.len() > 0 ==> final(self)@.buf.len() <= MAX_FRAME,
            final(self)@ == feed_spec(old(self)@, chunk@),
    {
        if chunk.len() == 0 {
            self.eof = true;
            return;
        }
        let ghost old_buf = self.buf@;
        self.buf.extend_from_slice(chunk);
        assert(self.buf@ =~= old_buf + chunk@);
        if self.buf.len() > MAX_FRAME {
            self.buf.clear();
        }
    }

    /// Decides what the reader does next: hand out the next complete frame, stop
    /// at the end of the stream, or read more bytes.
    pub fn step(&mut self) -> (r: FrameStep)
        ensures
            final(self)@.eof == old(self)@.eof,
            match next_jpeg(old(self)@.buf) {
                Some((frame, rest)) => r matches FrameStep::Frame(f) && f@ == frame && final(self)@.buf
                    == rest,
                None => final(self)@.buf == old(self)@.buf && if old(self)@.eof {
                    r is End
                } else {
                    r is NeedData
                },
            },
            (frame_step_view(r), final(self)@) == step_spec(old(self)@),
    {
        match self.extract_frame() {
            Some(frame) => FrameStep::Frame(frame),
            None => if self.eof {
                FrameStep::End
            } else {
                FrameStep::NeedData
            },
        }
    }
}

/// The frames of a stream, in order: the next JPEG of the stream, then the
/// frames of what is left after it.
pub open spec fn jpeg_frames(buf: Seq<u8>) -> Seq<Seq<u8>>
    decreases buf.len(),
{
    match next_jpeg(buf) {
        Some((frame, rest)) => if rest.len() < buf.len() {
            seq![frame] + jpeg_frames(rest)
        } else {
            seq![]
        },
        None => seq![],
    }
}

/// The mathematical value of a [`FrameStep`].
pub enum FrameStepView {
    Frame(Seq<u8>),
    End,
    NeedData,
}

/// The view of a [`FrameStep`].
pub open spec fn frame_step_view(step: FrameStep) -> FrameStepView {
    match step {
        FrameStep::Frame(f) => FrameStepView::Frame(f@),
        FrameStep::End => FrameStepView::End,
        FrameStep::NeedData => FrameStepView::NeedData,
    }
}

/// What [`JpegFrames::step`] does to a framer: the step it reports, and the framer after it.
pub open spec fn step_spec(v: JpegFramesView) -> (FrameStepView, JpegFramesView) {
    match next_jpeg(v.buf) {
        Some((frame, rest)) => (FrameStepView::Frame(frame), JpegFramesView { buf: rest, eof: v.eof }),
        None => (if v.eof { FrameStepView::End } else { FrameStepView::NeedData }, v),
    }
}

/// What [`JpegFrames::feed`] does to a framer with one chunk.
pub open spec fn feed_spec(v: JpegFramesView, chunk: Seq<u8>) -> JpegFramesView {
    if chunk.len() == 0 {
        JpegFramesView { buf: v.buf, eof: true }
    } else if v.buf.len() + chunk.len() > MAX_FRAME {
        JpegFramesView { buf: Seq::empty(), eof: v.eof }
    } else {
        JpegFramesView { buf: v.buf + chunk, eof: v.eof }
    }
}

/// The frames a reader hands out when it asks the framer for steps, frames
/// out, and feeds it the next of `chunks` whenever it needs data, then the end
/// of the stream; it stops at [`FrameStep::End`], or after `fuel` steps.
pub open spec fn read_frames(v: JpegFramesView, chunks: Seq<Seq<u8>>, fuel: nat) -> Seq<Seq<u8>>
    decreases fuel,
{
    if fuel == 0 {
        seq![]
    } else {
        match step_spec(v) {
            (FrameStepView::Frame(f), next) => seq![f] + read_frames(next, chunks, (fuel - 1) as nat),
            (FrameStepView::End, _) => seq![],
            (FrameStepView::NeedData, _) => if chunks.len() == 0 {
                read_frames(feed_spec(v, seq![]), chunks, (fuel - 1) as nat)
            } else {
                read_frames(feed_spec(v, chunks[0]), chunks.drop_first(), (fuel - 1) as nat)
            },
        }
    }
}

/// Whether the reader of [`read_frames`] never feeds a chunk that would make
/// the buffer grow past [`MAX_FRAME`] bytes.
pub open spec fn never_overflows(v: JpegFramesView, chunks: Seq<Seq<u8>>, fuel: nat) -> bool
    decreases fuel,
{
    if fuel == 0 {
        true
    } else {
        match step_spec(v) {
            (FrameStepView::Frame(_), next) => never_overflows(next, chunks, (fuel - 1) as nat),
            (FrameStepView::End, _) => true,
            (FrameStepView::NeedData, _) => if chunks.len() == 0 {
                never_overflows(feed_spec(v, seq![]), chunks, (fuel - 1) as nat)
            } else {
                v.buf.len() + chunks[0].len() <= MAX_FRAME && never_overflows(
                    feed_spec(v, chunks[0]),
                    chunks.drop_first(),
                    (fuel - 1) as nat,
                )
            },
        }
    }
}

proof fn lemma_first_marker_from_extends(s: Seq<u8>, x: Seq<u8>, b0: u8, b1: u8, i: int)
    requires
        first_marker_from(s, b0, b1, i) is Some,
    ensures
        first_marker_from(s + x, b0, b1, i) == first_marker_from(s, b0, b1, i),
    decreases s.len() - i,
{
    let t = s + x;
    if !(i < 0 || i + 1 >= s.len()) {
        assert(t[i] == s[i] && t[i + 1] == s[i + 1]);
        if !(s[i] == b0 && s[i + 1] == b1) {
            lemma_first_marker_from_extends(s, x, b0, b1, i + 1);
        }
    }
}

/// A frame found in the buffer is found the same whatever follows it.
proof fn lemma_next_jpeg_extends(buf: Seq<u8>, x: Seq<u8>)
    requires
        next_jpeg(buf) is Some,
    ensures
        next_jpeg(buf) matches Some((frame, rest)) ==> next_jpeg(buf + x) == Some((frame, rest + x))
            && rest.len() + 4 <= buf.len(),
{
    let start = first_marker(buf, MARKER, SOI)->0;
    lemma_first_marker_from_bounds(buf, MARKER, SOI, 0);
    lemma_first_marker_from_extends(buf, x, MARKER, SOI, 0);
    let tail = buf.skip(start + 2);
    let e = first_marker(tail, MARKER, EOI)->0;
    lemma_first_marker_from_bounds(tail, MARKER, EOI, 0);
    lemma_first_marker_from_extends(tail, x, MARKER, EOI, 0);
    assert((buf + x).skip(start + 2) =~= tail + x);
    let end = start + 2 + e + 2;
    assert((buf + x).subrange(start, end) =~= buf.subrange(start, end));
    assert((buf + x).skip(end) =~= buf.skip(end) + x);
}

/// The frames of a stream begin with the next frame of its buffer, whatever
/// follows the buffer.
proof fn lemma_jpeg_frames_extend(buf: Seq<u8>, x: Seq<u8>)
    requires
        next_jpeg(buf) is Some,
    ensures
        next_jpeg(buf) matches Some((frame, rest)) ==> jpeg_frames(buf + x) == seq![frame] + jpeg_frames(
            rest + x,
        ),
{
    lemma_next_jpeg_extends(buf, x);
}

/// Once the stream has ended, the reader hands out the frames left in the
/// buffer, in order, and then stops.
proof fn lemma_ended_stream_frames(v: JpegFramesView, chunks: Seq<Seq<u8>>, fuel: nat)
    requires
        v.eof,
        fuel >= v.buf.len() + 1,
    ensures
        read_frames(v, chunks, fuel) == jpeg_frames(v.buf),
    decreases v.buf.len(),
{
    match next_jpeg(v.buf) {
        Some((frame, rest)) => {
            lemma_next_jpeg_extends(v.buf, seq![]);
            assert(v.buf + seq![] =~= v.buf);
            lemma_ended_stream_frames(JpegFramesView { buf: rest, eof: true }, chunks, (fuel - 1) as nat);
        },
        None => {},
    }
}

/// The reader hands out the frames of what is buffered followed by the chunks
/// still to come, as long as the buffer never overflows.
proof fn lemma_read_frames(v: JpegFramesView, chunks: Seq<Seq<u8>>, fuel: nat)
    requires
        !v.eof,
        forall|i: int| 0 <= i < chunks.len() ==> 0 < #[trigger] chunks[i].len() <= READ_CHUNK,
        never_overflows(v, chunks, fuel),
        fuel >= v.buf.len() + chunks.flatten().len() + chunks.len() + 2,
    ensures
        read_frames(v, chunks, fuel) == jpeg_frames(v.buf + chunks.flatten()),
    decreases v.buf.len() + chunks.flatten().len() + chunks.len(),
{
    let flat = chunks.flatten();
    match next_jpeg(v.buf) {
        Some((frame, rest)) => {
            lemma_jpeg_frames_extend(v.buf, flat);
            lemma_next_jpeg_extends(v.buf, flat);
            lemma_read_frames(JpegFramesView { buf: rest, eof: false }, chunks, (fuel - 1) as nat);
        },
        None => {
            if chunks.len() == 0 {
                assert(flat =~= Seq::<u8>::empty());
                assert(v.buf + flat =~= v.buf);
                lemma_ended_stream_frames(JpegFramesView { buf: v.buf, eof: true }, chunks, (fuel - 1) as nat);
            } else {
                let c = chunks[0];
                let more = chunks.drop_first();
                assert(flat == c + more.flatten());
                assert(forall|i: int| 0 <= i < more.len() ==> #[trigger] more[i] == chunks[i + 1]);
                lemma_read_frames(JpegFramesView { buf: v.buf + c, eof: false }, more, (fuel - 1) as nat);
                assert(v.buf + c + more.flatten() =~= v.buf + flat);
            }
        },
    }
}

/// A reader that starts a framer afresh and feeds it a stream in chunks (each
/// of at most [`READ_CHUNK`] bytes), then its end, is handed the frames of the
/// whole stream, in order, and then the end: as long as the buffer never
/// overflows [`MAX_FRAME`], and given enough steps. After the end, every
/// further step is the end again (see [`lemma_end_is_final`]).
pub proof fn lemma_stream_yields_its_frames(chunks: Seq<Seq<u8>>, fuel: nat)
    requires
        forall|i: int| 0 <= i < chunks.len() ==> 0 < #[trigger] chunks[i].len() <= READ_CHUNK,
        never_overflows(JpegFramesView { buf: Seq::empty(), eof: false }, chunks, fuel),
        fuel >= chunks.flatten().len() + chunks.len() + 2,
    ensures
        read_frames(JpegFramesView { buf: Seq::empty(), eof: false }, chunks, fuel) == jpeg_frames(
            chunks.flatten(),
        ),
{
    lemma_read_frames(JpegFramesView { buf: Seq::empty(), eof: false }, chunks, fuel);
    assert(Seq::<u8>::empty() + chunks.flatten() =~= chunks.flatten());
}

/// Once a framer whose stream has ended reports the end, it reports the end
/// again, and stays as it is.
pub proof fn lemma_end_is_final(v: JpegFramesView)
    requires
        step_spec(v).0 is End,
    ensures
        step_spec(step_spec(v).1) == step_spec(v),
        step_spec(v).1 == v,
{
}

} // verus!
