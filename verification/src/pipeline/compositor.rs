//! The eye model sees the last four frames of both eyes at once, each
//! histogram-equalized, stacked as the eight channels of one image.

use std::collections::VecDeque;

use vstd::prelude::*;

use crate::capture::frame::{Frame, FrameView};

verus! {

/// Number of channels of the composite image: two eyes over four frames.
pub const COMPOSITE_CHANNELS: usize = 8;

/// Number of frame pairs held before a composite can be made.
pub const QUEUE_LEN: usize = 5;

/// What `imageproc::contrast::equalize_histogram` makes of a grayscale image
/// with the given pixels.
pub uninterp spec fn equalized(pixels: Seq<u8>) -> Seq<u8>;

/// Equalizes the histogram of a frame with `imageproc::contrast::equalize_histogram`,
/// returning the pixels of the result.
///
/// The result is named by [`equalized`]; the function clones its input and
/// rewrites every pixel in place, so the result has as many pixels as the frame.
/// `imageproc` counts the pixels of each value in a `u32`, so the frame may
/// hold at most `u32::MAX` pixels.
#[verifier::external_body]
fn equalize_histogram(frame: &Frame) -> (r: Vec<u8>)
    requires
        frame@.width <= u32::MAX,
        frame@.height <= u32::MAX,
        frame@.width * frame@.height <= u32::MAX,
    ensures
        r@ == equalized(frame@.pixels),
        r@.len() == frame@.pixels.len(),
{
    let image = image::GrayImage::from_raw(
        frame.width() as u32,
        frame.height() as u32,
        frame.as_slice().to_vec(),
    ).expect("a frame holds one byte per pixel");
    imageproc::contrast::equalize_histogram(&image).into_raw()
}

/// An image in channel-major (CHW) layout.
pub struct CompositeImage {
    pub data: Vec<u8>,
    pub width: u32,
    pub height: u32,
    pub channels: usize,
}

impl CompositeImage {
    /// An empty image of [`COMPOSITE_CHANNELS`] channels.
    pub fn empty() -> (r: CompositeImage)
        ensures
            r.data@ == Seq::<u8>::empty(),
            r.width == 0,
            r.height == 0,
            r.channels == COMPOSITE_CHANNELS,
    {
        CompositeImage { data: Vec::new(), width: 0, height: 0, channels: COMPOSITE_CHANNELS }
    }
}

/// One queued pair of equalized frames: the left eye's pixels, then the right eye's.
pub type EyePair = (Vec<u8>, Vec<u8>);

/// The composite of four pairs, oldest first: the channels run from the newest
/// pair to the oldest, the right eye before the left eye within each pair.
pub open spec fn composite_of(q: Seq<(Seq<u8>, Seq<u8>)>) -> Seq<u8> {
    q[3].1 + q[3].0 + q[2].1 + q[2].0 + q[1].1 + q[1].0 + q[0].1 + q[0].0
}

/// What one call of [`EyeCompositor::compose`] does to the queue of equalized
/// pairs, and what it returns: the pair is added; once five pairs are held, the
/// oldest is dropped and the composite of the four newest is made.
pub open spec fn compose_step(q: Seq<(Seq<u8>, Seq<u8>)>, pair: (Seq<u8>, Seq<u8>)) -> (Option<Seq<u8>>, Seq<(Seq<u8>, Seq<u8>)>) {
    let full = q.push(pair);
    if full.len() < QUEUE_LEN {
        (None, full)
    } else {
        (Some(composite_of(full.drop_first())), full.drop_first())
    }
}

/// The queue of a compositor made by [`EyeCompositor::new`] after it was given
/// the equalized pairs of `h`, in order.
pub open spec fn queue_after(h: Seq<(Seq<u8>, Seq<u8>)>) -> Seq<(Seq<u8>, Seq<u8>)>
    decreases h.len(),
{
    if h.len() == 0 {
        seq![]
    } else {
        compose_step(queue_after(h.drop_last()), h.last()).1
    }
}

/// What the last of those calls returns: the composite's pixels, if any.
pub open spec fn output_after(h: Seq<(Seq<u8>, Seq<u8>)>) -> Option<Seq<u8>> {
    compose_step(queue_after(h.drop_last()), h.last()).0
}

/// The queue after the pairs of `h` holds the newest of them, at most four.
proof fn lemma_queue_after(h: Seq<(Seq<u8>, Seq<u8>)>)
    ensures
        queue_after(h) == if h.len() <= 4 {
            h
        } else {
            h.subrange(h.len() - 4, h.len() as int)
        },
    decreases h.len(),
{
    if h.len() > 0 {
        let prev = h.drop_last();
        lemma_queue_after(prev);
        if h.len() <= 4 {
            assert(prev.push(h.last()) =~= h);
        } else if h.len() == 5 {
            assert(prev.push(h.last()) =~= h);
            assert(h.drop_first() =~= h.subrange(1, 5));
        } else {
            let q = prev.subrange(prev.len() - 4, prev.len() as int);
            assert(q.push(h.last()).drop_first() =~= h.subrange(h.len() - 4, h.len() as int));
        }
    }
}

/// Over successive calls on a new compositor, the first four return nothing,
/// and from the fifth on each returns the composite of the four newest pairs
/// (newest first, right eye before left), with only those four held.
pub proof fn lemma_compose_history(h: Seq<(Seq<u8>, Seq<u8>)>)
    requires
        h.len() >= 1,
    ensures
        h.len() < QUEUE_LEN ==> output_after(h) is None && queue_after(h) == h,
        h.len() >= QUEUE_LEN ==> output_after(h) == Some(composite_of(h.subrange(h.len() - 4, h.len() as int)))
            && queue_after(h) == h.subrange(h.len() - 4, h.len() as int),
{
    let prev = h.drop_last();
    lemma_queue_after(prev);
    lemma_queue_after(h);
    if h.len() < QUEUE_LEN {
        assert(prev.push(h.last()) =~= h);
    } else if h.len() == QUEUE_LEN {
        assert(prev.push(h.last()) =~= h);
        assert(h.drop_first() =~= h.subrange(1, 5));
    } else {
        let q = prev.subrange(prev.len() - 4, prev.len() as int);
        assert(q.push(h.last()).drop_first() =~= h.subrange(h.len() - 4, h.len() as int));
    }
}

/// The plane of the composite at channel `j`: the right eye's pixels of pair
/// `3 - j / 2` for even `j`, the left eye's for odd `j` (newest pair first).
pub open spec fn composite_plane(q: Seq<(Seq<u8>, Seq<u8>)>, j: int) -> Seq<u8> {
    if j % 2 == 0 {
        q[3 - j / 2].1
    } else {
        q[3 - j / 2].0
    }
}

/// When every frame of four pairs has `n` pixels, the composite holds eight
/// planes of `n` pixels, and plane `j` runs from `j * n` to `(j + 1) * n`.
pub proof fn lemma_composite_planes(q: Seq<(Seq<u8>, Seq<u8>)>, n: nat, j: int)
    requires
        q.len() == 4,
        forall|i: int| 0 <= i < 4 ==> (#[trigger] q[i]).0.len() == n && q[i].1.len() == n,
        0 <= j < COMPOSITE_CHANNELS,
    ensures
        composite_of(q).len() == COMPOSITE_CHANNELS * n,
        composite_of(q).subrange(j * n, (j + 1) * n) == composite_plane(q, j),
{
    let c = composite_of(q);
    let m = n as int;
    let (a0, a1, a2, a3) = (q[0], q[1], q[2], q[3]);
    assert(c.len() == 8 * n);
    if j == 0 {
        assert(c.subrange(0, m) =~= a3.1);
    } else if j == 1 {
        assert(c.subrange(m, 2 * m) =~= a3.0);
    } else if j == 2 {
        assert(c.subrange(2 * m, 3 * m) =~= a2.1);
    } else if j == 3 {
        assert(c.subrange(3 * m, 4 * m) =~= a2.0);
    } else if j == 4 {
        assert(c.subrange(4 * m, 5 * m) =~= a1.1);
    } else if j == 5 {
        assert(c.subrange(5 * m, 6 * m) =~= a1.0);
    } else if j == 6 {
        assert(c.subrange(6 * m, 7 * m) =~= a0.1);
    } else {
        assert(c.subrange(7 * m, 8 * m) =~= a0.0);
    }
}

/// The pixels of the queued pairs.
pub open spec fn pairs_view(q: Seq<EyePair>) -> Seq<(Seq<u8>, Seq<u8>)> {
    q.map_values(|p: EyePair| (p.0@, p.1@))
}

/// Builds the composite eye image from a short history of frame pairs.
pub struct EyeCompositor {
    composite: CompositeImage,
    queue: VecDeque<EyePair>,
    width: u32,
    height: u32,
}

impl EyeCompositor {
    /// The equalized frame pairs currently held, oldest first.
    pub closed spec fn queue(&self) -> Seq<(Seq<u8>, Seq<u8>)> {
        pairs_view(self.queue@)
    }

    /// The size of the frames held; meaningful while the queue is not empty.
    pub closed spec fn frame_size(&self) -> (u32, u32) {
        (self.width, self.height)
    }

    /// The composite made by the last successful call of [`EyeCompositor::compose`].
    pub closed spec fn composite(&self) -> CompositeImage {
        self.composite
    }

    /// Every held frame has `width * height` pixels, and fewer than
    /// [`QUEUE_LEN`] pairs are held.
    pub closed spec fn wf(&self) -> bool {
        &&& self.queue@.len() < QUEUE_LEN
        &&& self.width * self.height * COMPOSITE_CHANNELS <= u32::MAX
        &&& forall|i: int|
            0 <= i < self.queue@.len() ==> #[trigger] self.queue@[i].0@.len() == self.width * self.height
                && self.queue@[i].1@.len() == self.width * self.height
        &&& self.composite.channels == COMPOSITE_CHANNELS
    }

    /// A compositor with no history.
    pub fn new() -> (r: EyeCompositor)
        ensures
            r.wf(),
            r.queue() == Seq::<(Seq<u8>, Seq<u8>)>::empty(),
            r.composite().data@ == Seq::<u8>::empty(),
    {
        EyeCompositor { composite: CompositeImage::empty(), queue: VecDeque::with_capacity(QUEUE_LEN), width: 0, height: 0 }
    }

    /// Whether a pair of frames can be added: both frames have the same size,
    /// eight channels of that size fit the image's 32-bit sizes, and the frames
    /// held so far (if any) have that size too.
    pub open spec fn accepts(&self, left: FrameView, right: FrameView) -> bool {
        &&& left.width == right.width
        &&& left.height == right.height
        &&& left.width <= u32::MAX
        &&& left.height <= u32::MAX
        &&& left.width * left.height * COMPOSITE_CHANNELS <= u32::MAX
        &&& (self.queue().len() > 0 ==> self.frame_size() == (left.width as u32, left.height as u32))
    }

    /// Tests [`EyeCompositor::accepts`].
    pub fn fits(&self, left: &Frame, right: &Frame) -> (r: bool)
        requires
            self.wf(),
        ensures
            r == self.accepts(left@, right@),
    {
        let w = left.width();
        let h = left.height();
        if w != right.width() || h != right.height() {
            return false;
        }
        if w > 0xffff_ffff || h > 0xffff_ffff {
            return false;
        }
        if h != 0 && w > 536870911usize / h {
            assert(w * h * COMPOSITE_CHANNELS > u32::MAX) by (nonlinear_arith)
                requires
                    h != 0,
                    w > 536870911int / (h as int),
            {}
            return false;
        }
        assert(w * h * COMPOSITE_CHANNELS <= u32::MAX) by (nonlinear_arith)
            requires
                h == 0 || w <= 536870911int / (h as int),
        {}
        self.queue.len() == 0 || (self.width as usize == w && self.height as usize == h)
    }

    /// Adds the equalized frames of both eyes to the history.
    ///
    /// Until five pairs have been seen there is no composite and `None` is
    /// returned. From then on the oldest pair is dropped and the composite of the
    /// four newest pairs is returned: newest first, right eye before left eye.
    pub fn compose(&mut self, left: &Frame, right: &Frame) -> (r: Option<&CompositeImage>)
        requires
            old(self).wf(),
            old(self).accepts(left@, right@),
        ensures
            final(self).wf(),
            ({
                let q = old(self).queue().push((equalized(left@.pixels), equalized(right@.pixels)));
                if q.len() < QUEUE_LEN {
                    r is None && final(self).queue() == q
                } else {
                    &&& final(self).queue() == q.drop_first()
                    &&& r matches Some(image) && *image == final(self).composite()
                    &&& final(self).composite().width == left@.width
                    &&& final(self).composite().height == left@.height
                    &&& final(self).composite().channels == COMPOSITE_CHANNELS
                    &&& final(self).composite().data@ == composite_of(q.drop_first())
                    &&& final(self).composite().data@.len() == COMPOSITE_CHANNELS * (left@.width * left@.height)
                }
            }),
            compose_step(old(self).queue(), (equalized(left@.pixels), equalized(right@.pixels))).1
                == final(self).queue(),
            compose_step(old(self).queue(), (equalized(left@.pixels), equalized(right@.pixels))).0
                == match r {
                Some(image) => Some(image.data@),
                None => None::<Seq<u8>>,
            },
    {
        let _ = left.as_slice();
        let _ = right.as_slice();
        let l = equalize_histogram(left);
        let r = equalize_histogram(right);
        let ghost old_queue = self.queue@;
        self.width = left.width() as u32;
        self.height = left.height() as u32;
        self.queue.push_back((l, r));
        assert(pairs_view(self.queue@) =~= pairs_view(old_queue).push((equalized(left@.pixels), equalized(right@.pixels))));
        if self.queue.len() < QUEUE_LEN {
            return None;
        }
        let ghost full = self.queue@;
        let _ = self.queue.pop_front();
        assert(pairs_view(self.queue@) =~= pairs_view(full).drop_first());
        let mut data: Vec<u8> = Vec::new();
        let mut k: usize = 4;
        while k > 0
            invariant
                k <= 4,
                self.queue@.len() == 4,
                data@ == composite_prefix(pairs_view(self.queue@), k as int),
            decreases k,
        {
            k = k - 1;
            let pair = &self.queue[k];
            data.extend_from_slice(pair.1.as_slice());
            data.extend_from_slice(pair.0.as_slice());
            assert(data@ =~= composite_prefix(pairs_view(self.queue@), k as int));
        }
        proof {
            let q = pairs_view(self.queue@);
            reveal_with_fuel(composite_prefix, 5);
            assert(composite_prefix(q, 0) =~= composite_of(q));
        }
        self.composite.data = data;
        self.composite.width = self.width;
        self.composite.height = self.height;
        Some(&self.composite)
    }
}

/// The channels of the pairs from the newest down to position `k`.
pub open spec fn composite_prefix(q: Seq<(Seq<u8>, Seq<u8>)>, k: int) -> Seq<u8>
    decreases 4 - k,
{
    if k >= 4 {
        Seq::empty()
    } else {
        composite_prefix(q, k + 1) + q[k].1 + q[k].0
    }
}

} // verus!
