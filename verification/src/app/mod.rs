//! The screen state machine. The caller owns the display, the touch pad, the buzzer,
//! the storage and the sleep controller; it asks the machine what to do in the current
//! state, performs the returned actions in order, and hands back what the touch pad reported.
pub mod state;

use vstd::prelude::*;

use crate::app::state::AppState;
use crate::drivers::battery::{percent_of_mv, Battery, RAW_MV};
use crate::drivers::touch::TouchEvent;
use crate::storage::logger::{
    logged_events, saved_records, Event, EventKind, EventLogger, SavePlan,
};
use crate::ui::menu::{home_lines, menu_row, next_item, HomeMenuItem};
use crate::ui::text::{decimal, decimal_chars};

verus! {

/// Frequency of the alarm tone.
pub const ALARM_HZ: u32 = 2_000;
/// Length of one alarm beep in milliseconds.
pub const BEEP_MS: u64 = 200;
/// Silence after each alarm beep in milliseconds.
pub const PAUSE_MS: u64 = 150;
/// Number of beeps the alarm sounds.
pub const BEEP_COUNT: u32 = 3;
/// How long after start-up the boot screen stays, in milliseconds.
pub const BOOT_MS: u64 = 2_000;
/// How long the armed screen shows before the device sleeps, in milliseconds.
pub const ARMED_MS: u64 = 500;

/// One thing for the caller to do.
pub enum Action {
    /// Clear the display and draw these lines, one per text row from the top.
    Draw(Vec<String>),
    /// Wait until this many milliseconds have passed since start-up.
    WaitSinceBoot(u64),
    /// Wait this many milliseconds.
    Pause(u64),
    /// Sound the buzzer.
    Beep { frequency_hz: u32, duration_ms: u64 },
    /// Write the log to storage as the plan says.
    Persist(SavePlan),
    /// Enter deep sleep, waking (through a restart) when the touch pad goes high.
    DeepSleep,
}

/// The texts of a list of lines.
pub open spec fn texts(lines: Seq<String>) -> Seq<Seq<char>> {
    lines.map_values(|line: String| line@)
}

/// Whether `action` draws exactly `lines`.
pub open spec fn draws(action: Action, lines: Seq<Seq<char>>) -> bool {
    action matches Action::Draw(drawn) && texts(drawn@) == lines
}

/// Whether `action` persists the log `events`.
pub open spec fn persists(action: Action, events: Seq<Event>) -> bool {
    action matches Action::Persist(plan) && plan.count == events.len() && plan.records@
        == saved_records(events)
}

/// The boot screen.
pub open spec fn boot_lines() -> Seq<Seq<char>> {
    seq!["Initialising..."@]
}

/// The screen shown before the device sleeps armed.
pub open spec fn armed_lines() -> Seq<Seq<char>> {
    seq!["ARMED"@, ""@, "Monitoring..."@]
}

/// The alarm screen.
pub open spec fn alarm_lines() -> Seq<Seq<char>> {
    seq!["! ALARM !"@, ""@, "Event saved"@, "Hold: dismiss"@]
}

/// The history screen for a log of `count` events.
pub open spec fn history_lines(count: nat) -> Seq<Seq<char>> {
    seq!["History"@, "Events: "@ + decimal_chars(count), ""@, "Tap: back"@]
}

/// The battery screen for a divider reading of `millivolts` and a charge of `percent`:
/// the voltage reading, then the charge.
pub open spec fn battery_lines(millivolts: nat, percent: nat) -> Seq<Seq<char>> {
    seq![
        "Battery"@,
        decimal_chars(millivolts) + " mV"@,
        decimal_chars(percent) + "%"@,
        ""@,
        "Tap: back"@,
    ]
}

/// The home screen: the menu with the cursor on `selected`.
pub open spec fn home_screen_lines(selected: HomeMenuItem) -> Seq<Seq<char>> {
    seq![
        "Sentinel"@,
        menu_row(0, selected),
        menu_row(1, selected),
        menu_row(2, selected),
    ]
}

/// The alarm's sound: `BEEP_COUNT` beeps, each followed by a pause.
pub open spec fn alarm_sound(actions: Seq<Action>) -> bool {
    &&& actions.len() == 2 * BEEP_COUNT
    &&& forall|k: int|
        0 <= k < BEEP_COUNT ==> {
            &&& #[trigger] actions[2 * k] == Action::Beep {
                frequency_hz: ALARM_HZ,
                duration_ms: BEEP_MS,
            }
            &&& actions[2 * k + 1] == Action::Pause(PAUSE_MS)
        }
}

/// What the state machine holds: the current screen, the home menu cursor and the log.
pub struct AppView {
    pub state: AppState,
    pub home_cursor: HomeMenuItem,
    pub events: Seq<Event>,
}

/// The decisions of the device.
pub struct App {
    state: AppState,
    home_cursor: HomeMenuItem,
    battery: Battery,
    logger: EventLogger,
}

impl View for App {
    type V = AppView;

    closed spec fn view(&self) -> AppView {
        AppView { state: self.state, home_cursor: self.home_cursor, events: self.logger@ }
    }
}

/// The lines with these texts.
fn lines_of(texts_in: Vec<&str>) -> (r: Vec<String>)
    ensures
        texts(r@) == texts_in@.map_values(|t: &str| t@),
{
    let mut r: Vec<String> = Vec::new();
    let mut i: usize = 0;
    while i < texts_in.len()
        invariant
            i <= texts_in@.len(),
            r@.len() == i,
            forall|j: int| 0 <= j < i ==> #[trigger] r@[j]@ == texts_in@[j]@,
        decreases texts_in@.len() - i,
    {
        r.push(String::from_str(texts_in[i]));
        i += 1;
    }
    proof {
        assert(texts(r@) =~= texts_in@.map_values(|t: &str| t@));
    }
    r
}

impl App {
    /// The machine after start-up: the alarm when the device woke from deep sleep (the pad
    /// was touched while armed), the boot screen otherwise; the cursor on "Arm".
    pub fn new(battery: Battery, logger: EventLogger, woke_from_deep_sleep: bool) -> (r: Self)
        ensures
            r@.state == if woke_from_deep_sleep {
                AppState::Alarm
            } else {
                AppState::Boot
            },
            r@.home_cursor == HomeMenuItem::Arm,
            r@.events == logger@,
    {
        let initial_state = if woke_from_deep_sleep {
            AppState::Alarm
        } else {
            AppState::Boot
        };
        App { state: initial_state, home_cursor: HomeMenuItem::Arm, battery, logger }
    }

    /// The current screen.
    pub fn state(&self) -> (r: AppState)
        ensures
            r == self@.state,
    {
        self.state
    }

    /// The selected entry of the home menu.
    pub fn home_cursor(&self) -> (r: HomeMenuItem)
        ensures
            r == self@.home_cursor,
    {
        self.home_cursor
    }

    /// The event log.
    pub fn logger(&self) -> (r: &EventLogger)
        ensures
            r@ == self@.events,
    {
        &self.logger
    }

    /// Boot: show the boot screen until the boot time has passed, then go home.
    pub fn state_boot(&mut self) -> (r: Vec<Action>)
        ensures
            r@.len() == 2,
            draws(r@[0], boot_lines()),
            r@[1] == Action::WaitSinceBoot(BOOT_MS),
            final(self)@ == (AppView { state: AppState::Home, ..old(self)@ }),
    {
        let mut r: Vec<Action> = Vec::new();
        let lines = lines_of(vec!["Initialising..."]);
        proof {
            assert(texts(lines@) =~= boot_lines());
        }
        r.push(Action::Draw(lines));
        r.push(Action::WaitSinceBoot(BOOT_MS));
        self.state = AppState::Home;
        r
    }

    /// Home, before the touch pad is read: draw the menu with the cursor on the selected entry.
    pub fn home_screen(&self) -> (r: Vec<Action>)
        ensures
            r@.len() == 1,
            draws(r@[0], home_screen_lines(self@.home_cursor)),
    {
        let shown = home_lines(self.home_cursor);
        let lines = lines_of(vec![shown[0], shown[1], shown[2], shown[3]]);
        proof {
            assert(texts(lines@) =~= home_screen_lines(self@.home_cursor)) by {
                assert(shown[0int + 1]@ == menu_row(0, self@.home_cursor));
                assert(shown[1int + 1]@ == menu_row(1, self@.home_cursor));
                assert(shown[2int + 1]@ == menu_row(2, self@.home_cursor));
            }
        }
        let mut r: Vec<Action> = Vec::new();
        r.push(Action::Draw(lines));
        r
    }

    /// Home, after the menu was drawn and the touch pad reported `touch`: a tap moves the
    /// cursor; a long press opens the selected entry, and arming records an `Armed` event
    /// and persists the log; otherwise nothing changes.
    pub fn state_home(&mut self, touch: TouchEvent) -> (r: Vec<Action>)
        ensures
            match touch {
                TouchEvent::Tap => {
                    &&& r@.len() == 0
                    &&& final(self)@ == (AppView {
                        home_cursor: next_item(old(self)@.home_cursor),
                        ..old(self)@
                    })
                },
                TouchEvent::LongPress => match old(self)@.home_cursor {
                    HomeMenuItem::Arm => {
                        &&& final(self)@.state == AppState::Armed
                        &&& final(self)@.home_cursor == old(self)@.home_cursor
                        &&& final(self)@.events == logged_events(
                            old(self)@.events,
                            Event { timestamp_ms: 0, kind: EventKind::Armed },
                        )
                        &&& r@.len() == 1
                        &&& persists(r@[0], final(self)@.events)
                    },
                    HomeMenuItem::History => {
                        &&& r@.len() == 0
                        &&& final(self)@ == (AppView { state: AppState::History, ..old(self)@ })
                    },
                    HomeMenuItem::Battery => {
                        &&& r@.len() == 0
                        &&& final(self)@ == (AppView { state: AppState::Battery, ..old(self)@ })
                    },
                },
                TouchEvent::Nothing => r@.len() == 0 && final(self)@ == old(self)@,
            },
    {
        let mut r: Vec<Action> = Vec::new();
        match touch {
            TouchEvent::Tap => {
                self.home_cursor = self.home_cursor.next();
            },
            TouchEvent::LongPress => match self.home_cursor {
                HomeMenuItem::Arm => {
                    let plan = self.logger.log(EventKind::Armed, 0);
                    r.push(Action::Persist(plan));
                    self.state = AppState::Armed;
                },
                HomeMenuItem::History => {
                    self.state = AppState::History;
                },
                HomeMenuItem::Battery => {
                    self.state = AppState::Battery;
                },
            },
            TouchEvent::Nothing => {},
        }
        r
    }

    /// Armed: show the armed screen for a moment, blank the display and sleep until the
    /// pad is touched. Waking restarts the device, so the state is left as it is.
    pub fn state_armed(&self) -> (r: Vec<Action>)
        ensures
            r@.len() == 4,
            draws(r@[0], armed_lines()),
            r@[1] == Action::Pause(ARMED_MS),
            draws(r@[2], Seq::empty()),
            r@[3] == Action::DeepSleep,
    {
        let mut r: Vec<Action> = Vec::new();
        let lines = lines_of(vec!["ARMED", "", "Monitoring..."]);
        proof {
            assert(texts(lines@) =~= armed_lines());
        }
        r.push(Action::Draw(lines));
        r.push(Action::Pause(ARMED_MS));
        r.push(Action::Draw(Vec::new()));
        r.push(Action::DeepSleep);
        proof {
            assert(texts(Seq::<String>::empty()) == Seq::<Seq<char>>::empty());
        }
        r
    }

    /// Alarm: record an `AlarmTriggered` event and persist the log, show the alarm screen
    /// and sound the alarm. The state stays until `alarm_touch` dismisses it.
    pub fn state_alarm(&mut self) -> (r: Vec<Action>)
        ensures
            final(self)@ == (AppView {
                events: logged_events(
                    old(self)@.events,
                    Event { timestamp_ms: 0, kind: EventKind::AlarmTriggered },
                ),
                ..old(self)@
            }),
            r@.len() == 2 + 2 * BEEP_COUNT,
            persists(r@[0], final(self)@.events),
            draws(r@[1], alarm_lines()),
            alarm_sound(r@.skip(2)),
    {
        let mut r: Vec<Action> = Vec::new();
        let plan = self.logger.log(EventKind::AlarmTriggered, 0);
        r.push(Action::Persist(plan));
        let lines = lines_of(vec!["! ALARM !", "", "Event saved", "Hold: dismiss"]);
        proof {
            assert(texts(lines@) =~= alarm_lines());
        }
        r.push(Action::Draw(lines));
        let mut k: u32 = 0;
        while k < BEEP_COUNT
            invariant
                k <= BEEP_COUNT,
                r@.len() == 2 + 2 * k,
                persists(r@[0], self@.events),
                draws(r@[1], alarm_lines()),
                forall|j: int|
                    0 <= j < k ==> {
                        &&& #[trigger] r@[2 + 2 * j] == Action::Beep {
                            frequency_hz: ALARM_HZ,
                            duration_ms: BEEP_MS,
                        }
                        &&& r@[2 + 2 * j + 1] == Action::Pause(PAUSE_MS)
                    },
            decreases BEEP_COUNT - k,
        {
            r.push(Action::Beep { frequency_hz: ALARM_HZ, duration_ms: BEEP_MS });
            r.push(Action::Pause(PAUSE_MS));
            k += 1;
        }
        proof {
            let sound = r@.skip(2);
            assert forall|j: int| 0 <= j < BEEP_COUNT implies {
                &&& #[trigger] sound[2 * j] == Action::Beep {
                    frequency_hz: ALARM_HZ,
                    duration_ms: BEEP_MS,
                }
                &&& sound[2 * j + 1] == Action::Pause(PAUSE_MS)
            } by {
                assert(sound[2 * j] == r@[2 + 2 * j]);
                assert(sound[2 * j + 1] == r@[2 + 2 * j + 1]);
            }
        }
        r
    }

    /// While the alarm shows: a long press dismisses it and goes home; anything else
    /// keeps it. Returns whether it was dismissed.
    pub fn alarm_touch(&mut self, touch: TouchEvent) -> (dismissed: bool)
        ensures
            dismissed == (touch == TouchEvent::LongPress),
            final(self)@ == if dismissed {
                AppView { state: AppState::Home, ..old(self)@ }
            } else {
                old(self)@
            },
    {
        if touch == TouchEvent::LongPress {
            self.state = AppState::Home;
            true
        } else {
            false
        }
    }

    /// History: show how many events the log holds.
    pub fn state_history(&self) -> (r: Vec<Action>)
        ensures
            r@.len() == 1,
            draws(r@[0], history_lines(self@.events.len())),
    {
        let count = self.logger.count();
        let mut summary = String::from_str("Events: ");
        let digits = decimal(count as u64);
        summary.append(digits.as_str());
        let mut lines: Vec<String> = Vec::new();
        lines.push(String::from_str("History"));
        lines.push(summary);
        lines.push(String::from_str(""));
        lines.push(String::from_str("Tap: back"));
        proof {
            assert(texts(lines@) == history_lines(self@.events.len()));
        }
        let mut r: Vec<Action> = Vec::new();
        r.push(Action::Draw(lines));
        r
    }

    /// Battery: show the voltage reading in millivolts and the charge in percent.
    pub fn state_battery(&self) -> (r: Vec<Action>)
        ensures
            r@.len() == 1,
            draws(
                r@[0],
                battery_lines(RAW_MV as nat, percent_of_mv(RAW_MV as int) as nat),
            ),
    {
        let mv = self.battery.read_raw();
        let mut reading = decimal(mv as u64);
        reading.append(" mV");
        let pct = self.battery.percent();
        let mut charge = decimal(pct as u64);
        charge.append("%");
        let mut lines: Vec<String> = Vec::new();
        lines.push(String::from_str("Battery"));
        lines.push(reading);
        lines.push(charge);
        lines.push(String::from_str(""));
        lines.push(String::from_str("Tap: back"));
        proof {
            assert(texts(lines@) =~= battery_lines(mv as nat, pct as nat));
        }
        let mut r: Vec<Action> = Vec::new();
        r.push(Action::Draw(lines));
        r
    }

    /// While the history or battery screen shows: any tap or long press goes home.
    /// Returns whether it left the screen.
    pub fn info_touch(&mut self, touch: TouchEvent) -> (left: bool)
        ensures
            left == (touch != TouchEvent::Nothing),
            final(self)@ == if left {
                AppView { state: AppState::Home, ..old(self)@ }
            } else {
                old(self)@
            },
    {
        if touch != TouchEvent::Nothing {
            self.state = AppState::Home;
            true
        } else {
            false
        }
    }
}

} // verus!
