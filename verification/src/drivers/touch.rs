use vstd::prelude::*;

verus! {

/// A press must last at least this long (in milliseconds) to count as a long press.
pub const LONG_PRESS_MS: u64 = 800;
/// A press shorter than this (in milliseconds) is contact bounce and is ignored.
pub const DEBOUNCE_MS: u64 = 50;

/// What one poll of the touch pad reports.
#[derive(Debug, Clone, Copy, PartialEq, Eq, Structural)]
pub enum TouchEvent {
    Tap,
    LongPress,
    /// No press was completed at this poll.
    Nothing,
}

/// Edge tracking for the capacitive touch pad. The pad's level and the clock are read by
/// the caller and handed to `poll`; times are microseconds on a monotonic clock.
pub struct TouchSensor {
    last_state: bool,
    press_start: Option<u64>,
}

/// How long a press that began at `start` has lasted at `now` (never negative).
pub open spec fn held_us(start: u64, now: u64) -> int {
    if now >= start {
        now - start
    } else {
        0
    }
}

/// The event reported when the pad is released after a press that lasted `held` microseconds.
pub open spec fn release_event(held: int) -> TouchEvent {
    if held < DEBOUNCE_MS * 1000 {
        TouchEvent::Nothing
    } else if held < LONG_PRESS_MS * 1000 {
        TouchEvent::Tap
    } else {
        TouchEvent::LongPress
    }
}

/// A release reports nothing after contact bounce, a tap after a press of at least the
/// debounce time and a long press after at least the long-press time.
pub proof fn lemma_release_classification(held: int)
    ensures
        release_event(held) == TouchEvent::Nothing <==> held < DEBOUNCE_MS * 1000,
        release_event(held) == TouchEvent::Tap <==> DEBOUNCE_MS * 1000 <= held < LONG_PRESS_MS
            * 1000,
        release_event(held) == TouchEvent::LongPress <==> held >= LONG_PRESS_MS * 1000,
{
}

/// A press that began at `start` and is released at `now >= start` lasted exactly
/// `now - start`, and is a long press exactly when that is at least the long-press time,
/// a tap exactly when it is at least the debounce time but shorter, and nothing otherwise.
pub proof fn lemma_release_after_press(start: u64, now: u64)
    requires
        start <= now,
    ensures
        held_us(start, now) == now - start,
        release_event(held_us(start, now)) == TouchEvent::LongPress <==> now - start
            >= LONG_PRESS_MS * 1000,
        release_event(held_us(start, now)) == TouchEvent::Tap <==> DEBOUNCE_MS * 1000 <= now
            - start < LONG_PRESS_MS * 1000,
        release_event(held_us(start, now)) == TouchEvent::Nothing <==> now - start
            < DEBOUNCE_MS * 1000,
{
}

impl TouchSensor {
    /// The level the pad had at the previous poll.
    pub closed spec fn spec_last_state(&self) -> bool {
        self.last_state
    }

    /// When the current press began, if the pad is held.
    pub closed spec fn spec_press_start(&self) -> Option<u64> {
        self.press_start
    }

    /// A sensor that has seen the pad released and no press.
    pub fn new() -> (r: Self)
        ensures
            !r.spec_last_state(),
            r.spec_press_start() is None,
    {
        TouchSensor { last_state: false, press_start: None }
    }

    /// Feeds the pad's level `current`, read at time `now_us`, and reports a tap or a long
    /// press when the pad has just been released after a press longer than the debounce time.
    pub fn poll(&mut self, current: bool, now_us: u64) -> (r: TouchEvent)
        ensures
            final(self).spec_last_state() == current,
            ({
                let rising = current && !old(self).spec_last_state();
                let falling = !current && old(self).spec_last_state();
                &&& final(self).spec_press_start() == if rising {
                    Some(now_us)
                } else if falling {
                    None
                } else {
                    old(self).spec_press_start()
                }
                &&& r == match old(self).spec_press_start() {
                    Some(start) if falling => release_event(held_us(start, now_us)),
                    _ => TouchEvent::Nothing,
                }
            }),
            // a release at or after the press start is classified by how long the press lasted
            old(self).spec_last_state() && !current ==> match old(self).spec_press_start() {
                Some(start) => start <= now_us ==> {
                    &&& (now_us - start >= LONG_PRESS_MS * 1000 <==> r == TouchEvent::LongPress)
                    &&& (DEBOUNCE_MS * 1000 <= now_us - start < LONG_PRESS_MS * 1000 <==> r
                        == TouchEvent::Tap)
                    &&& (now_us - start < DEBOUNCE_MS * 1000 <==> r == TouchEvent::Nothing)
                },
                None => r == TouchEvent::Nothing,
            },
            // anything but a release reports nothing
            !(old(self).spec_last_state() && !current) ==> r == TouchEvent::Nothing,
    {
        if current && !self.last_state {
            self.press_start = Some(now_us);
        }
        if !current && self.last_state {
            let taken = self.press_start.take();
            if let Some(start) = taken {
                let held: u64 = if now_us >= start {
                    now_us - start
                } else {
                    0
                };
                if held >= DEBOUNCE_MS * 1000 {
                    self.last_state = current;
                    return if held >= LONG_PRESS_MS * 1000 {
                        TouchEvent::LongPress
                    } else {
                        TouchEvent::Tap
                    };
                }
            }
        }
        self.last_state = current;
        TouchEvent::Nothing
    }
}

} // verus!
