//! The double-tap state machine.
//!
//! Time is a reading of the caller's monotonic clock, in nanoseconds since
//! whatever moment the caller counts from; only the distance between two
//! readings matters. The window is given in milliseconds.

use vstd::prelude::*;
use crate::input::KeyEvent;

verus! {

/// Nanoseconds in one millisecond.
pub const NANOS_PER_MILLI: u128 = 1_000_000;

/// The window used when nothing else is asked for, in milliseconds.
pub const DEFAULT_TIMEOUT_MS: u64 = 240;

/// What the detector remembers between presses.
pub struct TapState {
    /// When the designated key last went down, in nanoseconds on the
    /// caller's monotonic clock.
    pub last_press: nat,
    /// Presses counted towards the double-tap in progress.
    pub tap_count: nat,
}

/// Time from `last` to `now`; zero when `now` is not later than `last`.
pub open spec fn gap(last: nat, now: nat) -> nat {
    if now >= last {
        (now - last) as nat
    } else {
        0
    }
}

/// Whether a press at `now` falls inside the window opened at `last`.
pub open spec fn in_window(timeout_ms: nat, last: nat, now: nat) -> bool {
    gap(last, now) < timeout_ms * NANOS_PER_MILLI
}

/// Whether a press at `now` completes a double-tap.
pub open spec fn fires(s: TapState, timeout_ms: nat, now: nat) -> bool {
    in_window(timeout_ms, s.last_press, now) && s.tap_count + 1 == 2
}

/// The state after a press at `now`.
pub open spec fn after_press(s: TapState, timeout_ms: nat, now: nat) -> TapState {
    TapState {
        last_press: now,
        tap_count: if !in_window(timeout_ms, s.last_press, now) {
            1
        } else if s.tap_count + 1 == 2 {
            0
        } else {
            s.tap_count + 1
        },
    }
}

/// Watches presses of the designated key and reports each double-tap.
#[derive(Clone, Copy, Debug, PartialEq, Eq)]
pub struct TapDetector {
    timeout_ms: u64,
    last_press: u128,
    tap_count: u8,
}

impl View for TapDetector {
    type V = TapState;

    closed spec fn view(&self) -> TapState {
        TapState { last_press: self.last_press as nat, tap_count: self.tap_count as nat }
    }
}

impl TapDetector {
    #[verifier::type_invariant]
    spec fn armed_at_most_once(self) -> bool {
        self.tap_count <= 1
    }

    /// The window, in milliseconds, within which a second press counts.
    pub closed spec fn window_ms(&self) -> nat {
        self.timeout_ms as nat
    }

    /// A detector that has seen no press yet; `start` is the clock reading
    /// at which watching begins.
    pub fn new(timeout_ms: u64, start: u128) -> (detector: TapDetector)
        ensures
            detector.window_ms() == timeout_ms,
            detector@ == (TapState { last_press: start as nat, tap_count: 0 }),
    {
        TapDetector { timeout_ms, last_press: start, tap_count: 0 }
    }

    /// The window, in milliseconds.
    pub fn timeout_ms(&self) -> (ms: u64)
        ensures
            ms == self.window_ms(),
    {
        self.timeout_ms
    }

    /// The clock reading of the latest press; before the first press, the
    /// reading at which watching began.
    pub fn last_press(&self) -> (at: u128)
        ensures
            at == self@.last_press,
    {
        self.last_press
    }

    /// Presses counted towards the double-tap in progress: zero or one.
    pub fn tap_count(&self) -> (count: u8)
        ensures
            count == self@.tap_count,
            count <= 1,
    {
        proof {
            use_type_invariant(self);
        }
        self.tap_count
    }

    /// Takes one press of the designated key, read at `now`, and tells
    /// whether it completes a double-tap.
    pub fn on_press(&mut self, now: u128) -> (launch: bool)
        ensures
            final(self).window_ms() == old(self).window_ms(),
            final(self)@ == after_press(old(self)@, old(self).window_ms(), now as nat),
            launch == fires(old(self)@, old(self).window_ms(), now as nat),
    {
        proof {
            use_type_invariant(&*self);
        }
        let elapsed: u128 = if now >= self.last_press {
            now - self.last_press
        } else {
            0
        };
        let window: u128 = (self.timeout_ms as u128) * NANOS_PER_MILLI;
        let mut launch = false;
        let mut count: u8 = 1;
        if elapsed < window {
            count = self.tap_count + 1;
            if count == 2 {
                launch = true;
                count = 0;
            }
        }
        *self = TapDetector { timeout_ms: self.timeout_ms, last_press: now, tap_count: count };
        launch
    }

    /// Takes one event, read at `now`. Only a press of the designated key
    /// reaches the state machine; anything else leaves the detector as it
    /// was and launches nothing.
    pub fn on_event(&mut self, event: KeyEvent, now: u128) -> (launch: bool)
        ensures
            final(self).window_ms() == old(self).window_ms(),
            event.is_target_press() ==> final(self)@ == after_press(
                old(self)@,
                old(self).window_ms(),
                now as nat,
            ) && launch == fires(old(self)@, old(self).window_ms(), now as nat),
            !event.is_target_press() ==> *final(self) == *old(self) && !launch,
    {
        if event.qualifies() {
            self.on_press(now)
        } else {
            false
        }
    }
}

/// Two presses less than the window apart make one double-tap: exactly one
/// of the two launches, and the count is back at zero right after it does.
/// Where the first press does not itself complete an earlier double-tap,
/// the launch comes at the second press and the count ends at zero.
pub proof fn lemma_quick_pair_launches_once(s: TapState, timeout_ms: nat, first: nat, second: nat)
    requires
        s.tap_count <= 1,
        in_window(timeout_ms, first, second),
    ensures
        ({
            let mid = after_press(s, timeout_ms, first);
            let end = after_press(mid, timeout_ms, second);
            let launch_first = fires(s, timeout_ms, first);
            let launch_second = fires(mid, timeout_ms, second);
            &&& launch_first != launch_second
            &&& launch_first ==> mid.tap_count == 0
            &&& launch_second ==> end.tap_count == 0
            &&& !launch_first ==> launch_second && end == (TapState {
                last_press: second,
                tap_count: 0,
            })
        }),
{
}

/// A press that comes a full window or more after the one before it never
/// launches and opens a new sequence: the count stands at one. (The earlier
/// press may still have completed a double-tap begun before it.)
pub proof fn lemma_slow_pair_starts_over(s: TapState, timeout_ms: nat, first: nat, second: nat)
    requires
        !in_window(timeout_ms, first, second),
    ensures
        ({
            let mid = after_press(s, timeout_ms, first);
            let end = after_press(mid, timeout_ms, second);
            &&& !fires(mid, timeout_ms, second)
            &&& end == (TapState { last_press: second, tap_count: 1 })
        }),
{
}

/// Three presses in quick succession launch once, at the second press; the
/// third opens a new sequence instead of launching again.
pub proof fn lemma_triple_tap_launches_once(
    s: TapState,
    timeout_ms: nat,
    first: nat,
    second: nat,
    third: nat,
)
    requires
        s.tap_count <= 1,
        !fires(s, timeout_ms, first),
        in_window(timeout_ms, first, second),
        in_window(timeout_ms, second, third),
    ensures
        ({
            let one = after_press(s, timeout_ms, first);
            let two = after_press(one, timeout_ms, second);
            let three = after_press(two, timeout_ms, third);
            &&& fires(one, timeout_ms, second)
            &&& !fires(two, timeout_ms, third)
            &&& three == (TapState { last_press: third, tap_count: 1 })
        }),
{
}

/// Whatever the presses, the count stays at zero or one between them.
pub proof fn lemma_count_stays_small(s: TapState, timeout_ms: nat, now: nat)
    requires
        s.tap_count <= 1,
    ensures
        after_press(s, timeout_ms, now).tap_count <= 1,
        after_press(s, timeout_ms, now).last_press == now,
        fires(s, timeout_ms, now) ==> after_press(s, timeout_ms, now).tap_count == 0,
{
}

} // verus!
