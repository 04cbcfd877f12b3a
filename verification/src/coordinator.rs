//! The watch loop's decisions: whether to go on, what an event leads to,
//! and what to do when reading events fails.
//!
//! The loop itself belongs to the caller. Before each round it shows the
//! coordinator what the shutdown flag says; it then reads a batch of events
//! and hands them over one by one, in the order they came. A stop, once
//! seen, is final: the coordinator tells the loop to leave and lets no
//! further event through to the detector.

use vstd::prelude::*;
use crate::detector::{after_press, fires, TapDetector, TapState};
use crate::input::KeyEvent;

verus! {

/// How long the loop waits after a failed read before it tries again, in
/// milliseconds. A failed read never ends the loop.
pub const RETRY_DELAY_MS: u64 = 100;

/// What the coordinator remembers.
pub struct LoopState {
    /// The detector's state.
    pub taps: TapState,
    /// Whether a stop has been seen.
    pub stopped: bool,
}

/// One thing that happens to the loop.
pub enum LoopInput {
    /// The flag was read at the top of a round; `running` is what it said.
    Checkpoint { running: bool },
    /// An event arrived and the clock read `now` nanoseconds.
    Event { event: KeyEvent, now: nat },
    /// Reading a batch of events failed.
    FetchFailed,
}

/// The state after one input.
pub open spec fn after_input(s: LoopState, timeout_ms: nat, input: LoopInput) -> LoopState {
    match input {
        LoopInput::Checkpoint { running } => LoopState {
            taps: s.taps,
            stopped: s.stopped || !running,
        },
        LoopInput::Event { event, now } => if !s.stopped && event.is_target_press() {
            LoopState { taps: after_press(s.taps, timeout_ms, now), stopped: false }
        } else {
            s
        },
        LoopInput::FetchFailed => s,
    }
}

/// Whether one input makes the launcher start.
pub open spec fn input_launches(s: LoopState, timeout_ms: nat, input: LoopInput) -> bool {
    match input {
        LoopInput::Event { event, now } => !s.stopped && event.is_target_press() && fires(
            s.taps,
            timeout_ms,
            now,
        ),
        _ => false,
    }
}

/// The state after a run of inputs, taken in order.
pub open spec fn after_inputs(s: LoopState, timeout_ms: nat, inputs: Seq<LoopInput>) -> LoopState
    decreases inputs.len(),
{
    if inputs.len() == 0 {
        s
    } else {
        after_inputs(after_input(s, timeout_ms, inputs[0]), timeout_ms, inputs.drop_first())
    }
}

/// How many times a run of inputs makes the launcher start.
pub open spec fn launches_during(s: LoopState, timeout_ms: nat, inputs: Seq<LoopInput>) -> nat
    decreases inputs.len(),
{
    if inputs.len() == 0 {
        0
    } else {
        (if input_launches(s, timeout_ms, inputs[0]) {
            1nat
        } else {
            0nat
        }) + launches_during(
            after_input(s, timeout_ms, inputs[0]),
            timeout_ms,
            inputs.drop_first(),
        )
    }
}

/// Drives the watch loop.
#[derive(Clone, Copy, Debug, PartialEq, Eq)]
pub struct Coordinator {
    detector: TapDetector,
    stopped: bool,
}

impl View for Coordinator {
    type V = LoopState;

    closed spec fn view(&self) -> LoopState {
        LoopState { taps: self.detector@, stopped: self.stopped }
    }
}

impl Coordinator {
    /// The detector's window, in milliseconds.
    pub closed spec fn window_ms(&self) -> nat {
        self.detector.window_ms()
    }

    /// A coordinator for a loop that starts at clock reading `start`, with
    /// no press seen and no stop seen.
    pub fn new(timeout_ms: u64, start: u128) -> (coordinator: Coordinator)
        ensures
            coordinator.window_ms() == timeout_ms,
            coordinator@ == (LoopState {
                taps: TapState { last_press: start as nat, tap_count: 0 },
                stopped: false,
            }),
    {
        Coordinator { detector: TapDetector::new(timeout_ms, start), stopped: false }
    }

    /// Whether a stop has been seen.
    pub fn is_stopped(&self) -> (stopped: bool)
        ensures
            stopped == self@.stopped,
    {
        self.stopped
    }

    /// The detector as it stands.
    pub fn detector(&self) -> (detector: TapDetector)
        ensures
            detector@ == self@.taps,
            detector.window_ms() == self.window_ms(),
    {
        self.detector
    }

    /// The check at the top of each round. `running` is what the shutdown
    /// flag says right now. Returns whether the loop goes on; once it has
    /// returned `false` it does so ever after, whatever the flag says.
    pub fn checkpoint(&mut self, running: bool) -> (proceed: bool)
        ensures
            final(self).window_ms() == old(self).window_ms(),
            final(self)@ == after_input(
                old(self)@,
                old(self).window_ms(),
                LoopInput::Checkpoint { running },
            ),
            proceed == !final(self)@.stopped,
    {
        if !running {
            self.stopped = true;
        }
        !self.stopped
    }

    /// Takes one event of a batch, read at `now`, and tells whether the
    /// launcher is to be started. After a stop nothing is processed.
    pub fn on_event(&mut self, event: KeyEvent, now: u128) -> (launch: bool)
        ensures
            final(self).window_ms() == old(self).window_ms(),
            final(self)@ == after_input(
                old(self)@,
                old(self).window_ms(),
                LoopInput::Event { event, now: now as nat },
            ),
            launch == input_launches(
                old(self)@,
                old(self).window_ms(),
                LoopInput::Event { event, now: now as nat },
            ),
            !(event.is_target_press() && !old(self)@.stopped) ==> *final(self) == *old(self),
    {
        if self.stopped {
            false
        } else {
            self.detector.on_event(event, now)
        }
    }

    /// Takes the failure of a read and tells how many milliseconds to wait
    /// before the next round. The failure changes nothing else: it is never
    /// a reason to stop.
    pub fn on_fetch_failure(&self) -> (delay_ms: u64)
        ensures
            delay_ms == RETRY_DELAY_MS,
            self@ == after_input(self@, self.window_ms(), LoopInput::FetchFailed),
    {
        RETRY_DELAY_MS
    }
}

/// A stop is final: from a stopped state no run of inputs changes anything
/// or starts the launcher. In particular every later checkpoint finds the
/// loop stopped, whatever the flag says by then.
pub proof fn lemma_stop_is_final(s: LoopState, timeout_ms: nat, inputs: Seq<LoopInput>)
    requires
        s.stopped,
    ensures
        after_inputs(s, timeout_ms, inputs) == s,
        launches_during(s, timeout_ms, inputs) == 0,
    decreases inputs.len(),
{
    if inputs.len() > 0 {
        lemma_stop_is_final(after_input(s, timeout_ms, inputs[0]), timeout_ms, inputs.drop_first());
    }
}

/// The stop mark only ever goes one way: it is set by a checkpoint that
/// finds the flag down, and no input clears it.
pub proof fn lemma_stop_is_one_way(s: LoopState, timeout_ms: nat, input: LoopInput)
    ensures
        after_input(s, timeout_ms, input).stopped <==> s.stopped || input == (LoopInput::Checkpoint {
            running: false,
        }),
{
}

/// Only a press of the designated key can change what the detector
/// remembers or start the launcher; releases, repeats, other keys, other
/// event types, checkpoints and failed reads cannot.
pub proof fn lemma_only_presses_count(s: LoopState, timeout_ms: nat, input: LoopInput)
    requires
        !(input matches LoopInput::Event { event, .. } && event.is_target_press()),
    ensures
        after_input(s, timeout_ms, input).taps == s.taps,
        !input_launches(s, timeout_ms, input),
{
}

} // verus!
