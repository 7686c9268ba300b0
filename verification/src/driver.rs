//! The animation loop as a state machine: it runs for a fixed time, feeds the
//! time that has passed to the shader, and keeps the window on the pointer.

use crate::geometry::PointerPosition;
use crate::window::{spec_reposition, ConfigureRequest, OverlayWindow};
use vstd::prelude::*;

verus! {

/// How long the animation runs, in nanoseconds: five seconds.
pub const RUN_NANOS: u64 = 5_000_000_000;

/// Whether the loop goes on.
#[derive(Clone, Copy, Debug, PartialEq, Eq, Structural)]
pub enum DriverState {
    Running,
    Terminated,
}

/// What the top of an iteration decides.
#[derive(Clone, Copy, Debug, PartialEq, Eq, Structural)]
pub enum Tick {
    /// Draw one frame; the shader is told that this much time has passed.
    Frame { elapsed_nanos: u64 },
    /// Leave the loop without drawing.
    Exit,
}

/// The loop's state between iterations: whether it runs, and the window with
/// its recorded pointer sample.
#[derive(Clone, Copy, Debug, PartialEq, Eq, Structural)]
pub struct AnimationDriver {
    pub state: DriverState,
    pub window: OverlayWindow,
}

/// The decision at the top of an iteration, `elapsed_nanos` after the start:
/// a running loop draws while no more than the run time has passed, and ends
/// once more has; a loop that has ended stays so.
pub open spec fn spec_tick(state: DriverState, elapsed_nanos: u128) -> (DriverState, Tick) {
    if state == DriverState::Running && elapsed_nanos <= RUN_NANOS {
        (DriverState::Running, Tick::Frame { elapsed_nanos: elapsed_nanos as u64 })
    } else {
        (DriverState::Terminated, Tick::Exit)
    }
}

/// The decisions of successive iterations, one for each clock sample.
pub open spec fn run(state: DriverState, samples: Seq<u128>) -> Seq<Tick>
    decreases samples.len(),
{
    if samples.len() == 0 {
        Seq::empty()
    } else {
        seq![spec_tick(state, samples[0]).1] + run(
            spec_tick(state, samples[0]).0,
            samples.drop_first(),
        )
    }
}

/// Whether none of the samples up to and including the one at `i` is past the
/// run time.
pub open spec fn in_time_through(samples: Seq<u128>, i: int) -> bool {
    forall|j: int| 0 <= j <= i ==> #[trigger] samples[j] <= RUN_NANOS
}

impl AnimationDriver {
    /// A running loop around `window`.
    pub fn new(window: OverlayWindow) -> (d: Self)
        ensures
            d.state == DriverState::Running,
            d.window == window,
    {
        AnimationDriver { state: DriverState::Running, window }
    }

    /// Whether the loop still runs.
    pub fn is_running(&self) -> (running: bool)
        ensures
            running == (self.state == DriverState::Running),
    {
        match self.state {
            DriverState::Running => true,
            DriverState::Terminated => false,
        }
    }

    /// The top of an iteration, before a frame is acquired. `elapsed_nanos`
    /// is the time since the start. The loop ends at the first call where
    /// that is more than the run time; until then each call asks for a frame
    /// whose time value is `elapsed_nanos` itself.
    pub fn tick(&mut self, elapsed_nanos: u128) -> (t: Tick)
        ensures
            (final(self).state, t) == spec_tick(old(self).state, elapsed_nanos),
            final(self).window == old(self).window,
            t matches Tick::Frame { elapsed_nanos: payload } ==> payload == elapsed_nanos && payload
                <= RUN_NANOS,
    {
        if self.is_running() && elapsed_nanos <= RUN_NANOS as u128 {
            Tick::Frame { elapsed_nanos: elapsed_nanos as u64 }
        } else {
            self.state = DriverState::Terminated;
            Tick::Exit
        }
    }

    /// The pointer sample of a frame. A running loop hands it to the window,
    /// which asks to be moved if the pointer has; a loop that has ended
    /// ignores it.
    pub fn track(&mut self, sample: PointerPosition) -> (request: Option<ConfigureRequest>)
        ensures
            final(self).state == old(self).state,
            old(self).state == DriverState::Running ==> (final(self).window, request)
                == spec_reposition(old(self).window, sample),
            old(self).state == DriverState::Terminated ==> final(self).window == old(self).window
                && request is None,
    {
        if self.is_running() {
            self.window.reposition(sample)
        } else {
            None
        }
    }
}

/// What a run decides at each iteration: a frame with the sample as its time
/// value while no sample so far was past the run time, an exit from the first
/// such sample on.
pub proof fn lemma_run_decisions(state: DriverState, samples: Seq<u128>, i: int)
    requires
        0 <= i < samples.len(),
    ensures
        run(state, samples).len() == samples.len(),
        run(state, samples)[i] == if state == DriverState::Running && in_time_through(samples, i) {
            Tick::Frame { elapsed_nanos: samples[i] as u64 }
        } else {
            Tick::Exit
        },
    decreases samples.len(),
{
    lemma_run_len(state, samples);
    let next = spec_tick(state, samples[0]).0;
    let rest = samples.drop_first();
    if i > 0 {
        lemma_run_decisions(next, rest, i - 1);
        assert(run(state, samples)[i] == run(next, rest)[i - 1]);
        assert(rest[i - 1] == samples[i]);
        if in_time_through(samples, i) {
            assert(samples[0] <= RUN_NANOS);
            assert forall|j: int| 0 <= j <= i - 1 implies #[trigger] rest[j] <= RUN_NANOS by {
                assert(rest[j] == samples[j + 1]);
            }
        }
        if next == DriverState::Running && in_time_through(rest, i - 1) {
            assert forall|j: int| 0 <= j <= i implies #[trigger] samples[j] <= RUN_NANOS by {
                if j > 0 {
                    assert(samples[j] == rest[j - 1]);
                }
            }
        }
    } else {
        if samples[0] <= RUN_NANOS {
            assert(in_time_through(samples, 0));
        }
    }
}

/// A run decides once for each sample.
pub proof fn lemma_run_len(state: DriverState, samples: Seq<u128>)
    ensures
        run(state, samples).len() == samples.len(),
    decreases samples.len(),
{
    if samples.len() > 0 {
        lemma_run_len(spec_tick(state, samples[0]).0, samples.drop_first());
    }
}

/// With a clock that never goes back, the time values handed to the shader
/// never go back either, and each lies between zero and the run time.
pub proof fn lemma_payload_monotonic(samples: Seq<u128>, i: int, k: int)
    requires
        0 <= i <= k < samples.len(),
        forall|a: int, b: int| 0 <= a <= b < samples.len() ==> samples[a] <= samples[b],
        run(DriverState::Running, samples)[k] is Frame,
    ensures
        run(DriverState::Running, samples)[i] is Frame,
        run(DriverState::Running, samples)[i]->elapsed_nanos <= run(
            DriverState::Running,
            samples,
        )[k]->elapsed_nanos,
        0 <= run(DriverState::Running, samples)[i]->elapsed_nanos <= RUN_NANOS,
        run(DriverState::Running, samples)[k]->elapsed_nanos <= RUN_NANOS,
{
    lemma_run_decisions(DriverState::Running, samples, i);
    lemma_run_decisions(DriverState::Running, samples, k);
    assert(in_time_through(samples, k));
    assert(samples[i] <= RUN_NANOS);
    assert(samples[k] <= RUN_NANOS);
    assert(in_time_through(samples, i));
}

/// Once a run has left the loop it draws no more frames.
pub proof fn lemma_exit_is_final(samples: Seq<u128>, i: int, k: int)
    requires
        0 <= i <= k < samples.len(),
        run(DriverState::Running, samples)[i] is Exit,
    ensures
        run(DriverState::Running, samples)[k] is Exit,
{
    lemma_run_decisions(DriverState::Running, samples, i);
    lemma_run_decisions(DriverState::Running, samples, k);
    if in_time_through(samples, k) {
        assert(in_time_through(samples, i));
    }
}

} // verus!
