//! The window of frames over which a face calibration collects samples.
//!
//! A calibration pass is started for a number of frames; each tracked frame
//! is then collected until the window closes, and the last one completes the
//! pass, whose result replaces a bound.

use vstd::prelude::*;

use crate::control::decode::frames_value;

verus! {

/// What a calibration does with one tracked frame.
#[derive(Copy, Clone, Debug, PartialEq, Eq, Structural)]
pub enum WindowStep {
    /// No pass is running: the frame is not collected.
    Skip,
    /// The frame is collected, and the pass goes on.
    Collect,
    /// The frame is collected, and it was the last: the pass completes.
    Finish,
}

/// The step for a frame that arrives with `remaining` frames left in the
/// window, and the frames left after it.
pub open spec fn window_step(remaining: nat) -> (WindowStep, nat) {
    if remaining == 0 {
        (WindowStep::Skip, 0)
    } else if remaining == 1 {
        (WindowStep::Finish, 0)
    } else {
        (WindowStep::Collect, (remaining - 1) as nat)
    }
}

/// The steps of `k` frames in a row, starting with `remaining` frames left.
pub open spec fn window_steps(remaining: nat, k: nat) -> Seq<WindowStep>
    decreases k,
{
    if k == 0 {
        seq![]
    } else {
        let (step, rest) = window_step(remaining);
        seq![step] + window_steps(rest, (k - 1) as nat)
    }
}

/// `n` copies of `step`.
pub open spec fn repeated(step: WindowStep, n: nat) -> Seq<WindowStep> {
    Seq::new(n, |i: int| step)
}

/// A countdown of the frames left in a calibration pass.
pub struct CaptureWindow {
    remaining: usize,
}

impl CaptureWindow {
    /// The frames left in the pass; none when no pass runs.
    pub closed spec fn remaining_spec(&self) -> nat {
        self.remaining as nat
    }

    /// No pass running.
    pub fn new() -> (r: CaptureWindow)
        ensures
            r.remaining_spec() == 0,
    {
        CaptureWindow { remaining: 0 }
    }

    /// Starts a pass over `frames` frames, abandoning any pass that runs. A pass
    /// over no frames never completes.
    pub fn start(&mut self, frames: usize)
        ensures
            final(self).remaining_spec() == frames,
    {
        self.remaining = frames;
    }

    /// Whether a pass runs.
    pub fn is_active(&self) -> (r: bool)
        ensures
            r == (self.remaining_spec() > 0),
    {
        self.remaining > 0
    }

    /// Takes one tracked frame: see [`window_step`].
    pub fn step(&mut self) -> (r: WindowStep)
        ensures
            (r, final(self).remaining_spec()) == window_step(old(self).remaining_spec()),
    {
        if self.remaining == 0 {
            WindowStep::Skip
        } else {
            self.remaining = self.remaining - 1;
            if self.remaining == 0 {
                WindowStep::Finish
            } else {
                WindowStep::Collect
            }
        }
    }
}

/// A pass started over `n` frames collects exactly `n` frames: the first
/// `n - 1` go on, the `n`-th completes the pass, and every later frame is
/// skipped until another pass starts.
pub proof fn lemma_pass_collects_its_frames(n: nat, k: nat)
    requires
        n >= 1,
        k >= n,
    ensures
        window_steps(n, k) == repeated(WindowStep::Collect, (n - 1) as nat) + seq![WindowStep::Finish]
            + repeated(WindowStep::Skip, (k - n) as nat),
    decreases n,
{
    if n == 1 {
        lemma_idle_skips((k - 1) as nat);
        assert(window_steps(1, k) == seq![WindowStep::Finish] + window_steps(0, (k - 1) as nat));
        assert(repeated(WindowStep::Collect, 0) =~= seq![]);
        assert(window_steps(n, k) =~= repeated(WindowStep::Collect, (n - 1) as nat) + seq![
            WindowStep::Finish,
        ] + repeated(WindowStep::Skip, (k - n) as nat));
    } else {
        lemma_pass_collects_its_frames((n - 1) as nat, (k - 1) as nat);
        assert(window_steps(n, k) == seq![WindowStep::Collect] + window_steps((n - 1) as nat, (k - 1) as nat));
        assert(repeated(WindowStep::Collect, (n - 1) as nat) =~= seq![WindowStep::Collect] + repeated(
            WindowStep::Collect,
            (n - 2) as nat,
        ));
        assert(window_steps(n, k) =~= repeated(WindowStep::Collect, (n - 1) as nat) + seq![
            WindowStep::Finish,
        ] + repeated(WindowStep::Skip, (k - n) as nat));
    }
}

/// With no pass running, every frame is skipped.
pub proof fn lemma_idle_skips(k: nat)
    ensures
        window_steps(0, k) == repeated(WindowStep::Skip, k),
    decreases k,
{
    if k > 0 {
        lemma_idle_skips((k - 1) as nat);
        assert(window_steps(0, k) =~= repeated(WindowStep::Skip, k));
    } else {
        assert(window_steps(0, k) =~= repeated(WindowStep::Skip, k));
    }
}

/// A calibration pass over the frame count that a control message asks for
/// (see [`frames_value`]) collects at least one frame, and completes on the
/// last frame it asked for.
pub proof fn lemma_requested_pass_completes(n: i32, k: nat)
    requires
        k >= frames_value(n),
    ensures
        frames_value(n) >= 1,
        window_steps(frames_value(n) as nat, k)[frames_value(n) - 1] == WindowStep::Finish,
        forall|i: int| 0 <= i < frames_value(n) - 1 ==> #[trigger] window_steps(frames_value(n) as nat, k)[i] == WindowStep::Collect,
{
    let f = frames_value(n) as nat;
    lemma_pass_collects_its_frames(f, k);
    let head = repeated(WindowStep::Collect, (f - 1) as nat);
    assert((head + seq![WindowStep::Finish])[f - 1] == WindowStep::Finish);
    assert forall|i: int| 0 <= i < f - 1 implies #[trigger] window_steps(f, k)[i] == WindowStep::Collect by {
        assert((head + seq![WindowStep::Finish])[i] == head[i]);
    }
}

} // verus!
