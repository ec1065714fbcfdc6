use sentinel_mini::app::state::AppState;
use sentinel_mini::app::{Action, App, ALARM_HZ, BEEP_MS, BOOT_MS, PAUSE_MS, ARMED_MS};
use sentinel_mini::drivers::battery::Battery;
use sentinel_mini::drivers::buzzer::half_period_us;
use sentinel_mini::drivers::oled::line_top;
use sentinel_mini::drivers::touch::{TouchEvent, TouchSensor};
use sentinel_mini::storage::keys::{count_key, event_kind_key, event_ts_key, log_namespace};
use sentinel_mini::storage::logger::{
    Event, EventKind, EventLogger, SavePlan, StoredEvent, MAX_EVENTS,
};
use sentinel_mini::ui::menu::{home_lines, HomeMenuItem};
use sentinel_mini::ui::text::decimal;
use std::collections::HashMap;

fn drawn(action: &Action) -> Vec<String> {
    match action {
        Action::Draw(lines) => lines.clone(),
        _ => panic!("expected a draw"),
    }
}

fn plan(action: &Action) -> &SavePlan {
    match action {
        Action::Persist(p) => p,
        _ => panic!("expected a persist"),
    }
}

fn padded(name: &[u8]) -> [u8; 16] {
    let mut k = [0u8; 16];
    k[..name.len()].copy_from_slice(name);
    k
}

#[derive(Clone, Copy)]
enum Value {
    Byte(u8),
    Word(u64),
}

/// Applies a save plan to a key-value map the way the device writes it.
fn apply(store: &mut HashMap<Vec<u8>, Value>, plan: &SavePlan) {
    store.insert(b"cnt".to_vec(), Value::Byte(plan.count));
    for (i, r) in plan.records.iter().enumerate() {
        store.insert(event_kind_key(i).as_bytes()[..4].to_vec(), Value::Byte(r.kind));
        store.insert(event_ts_key(i).as_bytes()[..4].to_vec(), Value::Word(r.timestamp_ms));
    }
}

/// Reads the log back from a key-value map the way the device does at start-up.
fn read_back(store: &HashMap<Vec<u8>, Value>) -> Vec<StoredEvent> {
    let count = match store.get(&b"cnt".to_vec()) {
        Some(Value::Byte(c)) => *c,
        _ => return Vec::new(),
    };
    (0..count as usize)
        .map(|i| StoredEvent {
            kind: match store.get(&event_kind_key(i).as_bytes()[..4].to_vec()) {
                Some(Value::Byte(b)) => Some(*b),
                _ => None,
            },
            timestamp_ms: match store.get(&event_ts_key(i).as_bytes()[..4].to_vec()) {
                Some(Value::Word(w)) => Some(*w),
                _ => None,
            },
        })
        .collect()
}

fn stored(kind: u8, ts: u64) -> StoredEvent {
    StoredEvent { kind: Some(kind), timestamp_ms: Some(ts) }
}

#[test]
fn menu_next_cycles_through_three_entries() {
    assert_eq!(HomeMenuItem::Arm.next(), HomeMenuItem::History);
    assert_eq!(HomeMenuItem::History.next(), HomeMenuItem::Battery);
    assert_eq!(HomeMenuItem::Battery.next(), HomeMenuItem::Arm);
    for item in [HomeMenuItem::Arm, HomeMenuItem::History, HomeMenuItem::Battery] {
        assert_ne!(item.next(), item);
        assert_eq!(item.next().next().next(), item);
    }
}

#[test]
fn home_lines_mark_the_selected_entry() {
    assert_eq!(home_lines(HomeMenuItem::Arm), ["Sentinel", "> Arm", "  History", "  Battery"]);
    assert_eq!(home_lines(HomeMenuItem::History), ["Sentinel", "  Arm", "> History", "  Battery"]);
    assert_eq!(home_lines(HomeMenuItem::Battery), ["Sentinel", "  Arm", "  History", "> Battery"]);
}

#[test]
fn app_state_defaults_to_boot() {
    assert_eq!(AppState::default(), AppState::Boot);
}

#[test]
fn battery_percent_of_the_reading() {
    // (2054 - 1700) * 100 / 400 = 88.5, rounded down
    assert_eq!(Battery::new().percent(), 88);
    assert_eq!(Battery::default().percent(), 88);
    assert_eq!(Battery::new().read_raw(), 2_054);
}

#[test]
fn buzzer_half_period() {
    assert_eq!(half_period_us(2_000), 250);
    assert_eq!(half_period_us(1), 500_000);
    assert_eq!(half_period_us(3), 166_666);
}

#[test]
fn oled_rows_are_twelve_pixels_apart() {
    assert_eq!(line_top(0), 0);
    assert_eq!(line_top(1), 12);
    assert_eq!(line_top(3), 36);
}

#[test]
fn touch_short_press_is_bounce() {
    let mut t = TouchSensor::new();
    assert_eq!(t.poll(true, 1_000), TouchEvent::Nothing);
    assert_eq!(t.poll(true, 20_000), TouchEvent::Nothing);
    assert_eq!(t.poll(false, 50_999), TouchEvent::Nothing);
}

#[test]
fn touch_tap_and_long_press_thresholds() {
    let mut t = TouchSensor::new();
    assert_eq!(t.poll(true, 0), TouchEvent::Nothing);
    assert_eq!(t.poll(false, 50_000), TouchEvent::Tap);
    assert_eq!(t.poll(true, 100_000), TouchEvent::Nothing);
    assert_eq!(t.poll(false, 899_999), TouchEvent::Tap);
    assert_eq!(t.poll(true, 1_000_000), TouchEvent::Nothing);
    assert_eq!(t.poll(true, 1_500_000), TouchEvent::Nothing);
    assert_eq!(t.poll(false, 1_800_000), TouchEvent::LongPress);
    // staying released reports nothing
    assert_eq!(t.poll(false, 5_000_000), TouchEvent::Nothing);
}

#[test]
fn touch_release_after_bounce_forgets_the_press() {
    let mut t = TouchSensor::new();
    t.poll(true, 0);
    assert_eq!(t.poll(false, 10_000), TouchEvent::Nothing);
    // a new press starts its own timing
    t.poll(true, 2_000_000);
    assert_eq!(t.poll(false, 2_100_000), TouchEvent::Tap);
}

#[test]
fn touch_clock_earlier_than_press_counts_as_zero() {
    let mut t = TouchSensor::new();
    t.poll(true, 5_000_000);
    assert_eq!(t.poll(false, 1_000), TouchEvent::Nothing);
}

#[test]
fn event_kind_codes_round_trip() {
    for kind in [EventKind::Armed, EventKind::Disarmed, EventKind::AlarmTriggered] {
        assert_eq!(EventKind::from_u8(kind.to_u8()), Some(kind));
    }
    assert_eq!(EventKind::Armed.to_u8(), 0);
    assert_eq!(EventKind::Disarmed.to_u8(), 1);
    assert_eq!(EventKind::AlarmTriggered.to_u8(), 2);
    assert_eq!(EventKind::from_u8(3), None);
    assert_eq!(EventKind::from_u8(255), None);
}

#[test]
fn storage_keys_are_the_expected_names() {
    assert_eq!(*log_namespace().as_bytes(), padded(b"log"));
    assert_eq!(*count_key().as_bytes(), padded(b"cnt"));
    assert_eq!(*event_kind_key(0).as_bytes(), padded(b"e00k"));
    assert_eq!(*event_ts_key(0).as_bytes(), padded(b"e00t"));
    assert_eq!(*event_kind_key(7).as_bytes(), padded(b"e07k"));
    assert_eq!(*event_ts_key(31).as_bytes(), padded(b"e31t"));
    assert_eq!(*event_kind_key(99).as_bytes(), padded(b"e99k"));
    assert_ne!(event_kind_key(12), event_ts_key(12));
}

#[test]
fn logger_restores_valid_records_only() {
    let records = vec![
        stored(0, 10),
        StoredEvent { kind: None, timestamp_ms: Some(20) },
        stored(7, 30),
        StoredEvent { kind: Some(2), timestamp_ms: None },
        stored(2, 40),
    ];
    let logger = EventLogger::new(&records);
    assert_eq!(
        logger.entries(),
        &[
            Event { timestamp_ms: 10, kind: EventKind::Armed },
            Event { timestamp_ms: 40, kind: EventKind::AlarmTriggered },
        ]
    );
    assert_eq!(logger.count(), 2);
    assert_eq!(EventLogger::new(&Vec::new()).count(), 0);
}

#[test]
fn logger_restores_at_most_the_first_32() {
    let records: Vec<StoredEvent> = (0..40u64).map(|i| stored(1, i)).collect();
    let logger = EventLogger::new(&records);
    assert_eq!(logger.count(), MAX_EVENTS);
    assert_eq!(logger.entries()[0].timestamp_ms, 0);
    assert_eq!(logger.entries()[31].timestamp_ms, 31);
}

#[test]
fn logger_log_appends_and_drops_oldest_when_full() {
    let mut logger = EventLogger::new(&Vec::new());
    logger.log(EventKind::Armed, 5);
    assert_eq!(logger.entries(), &[Event { timestamp_ms: 5, kind: EventKind::Armed }]);
    for i in 0..40u64 {
        logger.log(EventKind::Disarmed, 100 + i);
    }
    assert_eq!(logger.count(), 32);
    assert_eq!(logger.entries()[0].timestamp_ms, 108);
    assert_eq!(logger.entries()[31].timestamp_ms, 139);
    logger.log(EventKind::AlarmTriggered, 7);
    assert_eq!(logger.count(), 32);
    assert_eq!(logger.entries()[0].timestamp_ms, 109);
    assert_eq!(logger.entries()[31], Event { timestamp_ms: 7, kind: EventKind::AlarmTriggered });
}

#[test]
fn logger_save_plan_lists_every_event() {
    let mut logger = EventLogger::new(&Vec::new());
    logger.log(EventKind::Armed, 1);
    let plan = logger.log(EventKind::AlarmTriggered, 2);
    let again = logger.save();
    assert_eq!(again.count, plan.count);
    assert_eq!(plan.count, 2);
    assert_eq!(plan.records.len(), 2);
    assert_eq!((plan.records[0].kind, plan.records[0].timestamp_ms), (0, 1));
    assert_eq!((plan.records[1].kind, plan.records[1].timestamp_ms), (2, 2));
}

#[test]
fn logger_survives_a_restart() {
    let mut store: HashMap<Vec<u8>, Value> = HashMap::new();
    // stale entries left from a longer log
    store.insert(b"e05k".to_vec(), Value::Byte(1));
    store.insert(b"e05t".to_vec(), Value::Word(999));
    let mut logger = EventLogger::new(&read_back(&store));
    for i in 0..35u64 {
        let kind = if i % 2 == 0 { EventKind::Armed } else { EventKind::AlarmTriggered };
        let plan = logger.log(kind, i * 1000);
        assert_eq!(plan.count as usize, logger.count());
        apply(&mut store, &plan);
        let again = EventLogger::new(&read_back(&store));
        assert_eq!(again.entries(), logger.entries());
    }
}

#[test]
fn decimal_formatting() {
    assert_eq!(decimal(0), "0");
    assert_eq!(decimal(7), "7");
    assert_eq!(decimal(10), "10");
    assert_eq!(decimal(1234), "1234");
    assert_eq!(decimal(u64::MAX), "18446744073709551615");
}

#[test]
fn app_starts_in_boot_or_alarm() {
    let app = App::new(Battery::new(), EventLogger::new(&Vec::new()), false);
    assert_eq!(app.state(), AppState::Boot);
    assert_eq!(app.home_cursor(), HomeMenuItem::Arm);
    let woke = App::new(Battery::new(), EventLogger::new(&Vec::new()), true);
    assert_eq!(woke.state(), AppState::Alarm);
}

#[test]
fn app_boot_goes_home() {
    let mut app = App::new(Battery::new(), EventLogger::new(&Vec::new()), false);
    let actions = app.state_boot();
    assert_eq!(actions.len(), 2);
    assert_eq!(drawn(&actions[0]), vec!["Initialising...".to_string()]);
    assert!(matches!(actions[1], Action::WaitSinceBoot(ms) if ms == BOOT_MS));
    assert_eq!(app.state(), AppState::Home);
}

#[test]
fn app_home_tap_moves_cursor_and_long_press_opens() {
    let mut app = App::new(Battery::new(), EventLogger::new(&Vec::new()), false);
    app.state_boot();
    assert!(app.state_home(TouchEvent::Nothing).is_empty());
    assert_eq!(app.home_cursor(), HomeMenuItem::Arm);
    assert!(app.state_home(TouchEvent::Tap).is_empty());
    assert_eq!(app.home_cursor(), HomeMenuItem::History);
    assert!(app.state_home(TouchEvent::LongPress).is_empty());
    assert_eq!(app.state(), AppState::History);
    assert!(!app.info_touch(TouchEvent::Nothing));
    assert_eq!(app.state(), AppState::History);
    assert!(app.info_touch(TouchEvent::Tap));
    assert_eq!(app.state(), AppState::Home);
    app.state_home(TouchEvent::Tap);
    assert_eq!(app.home_cursor(), HomeMenuItem::Battery);
    app.state_home(TouchEvent::LongPress);
    assert_eq!(app.state(), AppState::Battery);
    assert!(app.info_touch(TouchEvent::LongPress));
    assert_eq!(app.state(), AppState::Home);
}

#[test]
fn app_arming_logs_and_sleeps() {
    let mut app = App::new(Battery::new(), EventLogger::new(&Vec::new()), false);
    app.state_boot();
    let actions = app.state_home(TouchEvent::LongPress);
    assert_eq!(app.state(), AppState::Armed);
    assert_eq!(actions.len(), 1);
    let p = plan(&actions[0]);
    assert_eq!(p.count, 1);
    assert_eq!(p.records[0].kind, 0);
    assert_eq!(app.logger().entries(), &[Event { timestamp_ms: 0, kind: EventKind::Armed }]);
    let armed = app.state_armed();
    assert_eq!(armed.len(), 4);
    assert_eq!(drawn(&armed[0]), vec!["ARMED", "", "Monitoring..."]);
    assert!(matches!(armed[1], Action::Pause(ms) if ms == ARMED_MS));
    assert!(drawn(&armed[2]).is_empty());
    assert!(matches!(armed[3], Action::DeepSleep));
    assert_eq!(app.state(), AppState::Armed);
}

#[test]
fn app_alarm_logs_beeps_and_waits_for_long_press() {
    let mut app = App::new(Battery::new(), EventLogger::new(&vec![stored(0, 3)]), true);
    let actions = app.state_alarm();
    assert_eq!(actions.len(), 8);
    let p = plan(&actions[0]);
    assert_eq!(p.count, 2);
    assert_eq!((p.records[1].kind, p.records[1].timestamp_ms), (2, 0));
    assert_eq!(drawn(&actions[1]), vec!["! ALARM !", "", "Event saved", "Hold: dismiss"]);
    for k in 0..3 {
        assert!(matches!(actions[2 + 2 * k],
            Action::Beep { frequency_hz, duration_ms } if frequency_hz == ALARM_HZ && duration_ms == BEEP_MS));
        assert!(matches!(actions[3 + 2 * k], Action::Pause(ms) if ms == PAUSE_MS));
    }
    assert!(!app.alarm_touch(TouchEvent::Nothing));
    assert!(!app.alarm_touch(TouchEvent::Tap));
    assert_eq!(app.state(), AppState::Alarm);
    assert!(app.alarm_touch(TouchEvent::LongPress));
    assert_eq!(app.state(), AppState::Home);
}

#[test]
fn app_history_and_battery_screens() {
    let app = App::new(Battery::new(), EventLogger::new(&vec![stored(0, 3), stored(2, 4)]), false);
    let history = app.state_history();
    assert_eq!(drawn(&history[0]), vec!["History", "Events: 2", "", "Tap: back"]);
    let battery = app.state_battery();
    assert_eq!(drawn(&battery[0]), vec!["Battery", "2054 mV", "88%", "", "Tap: back"]);
    let empty = App::new(Battery::new(), EventLogger::new(&Vec::new()), false);
    assert_eq!(drawn(&empty.state_history()[0])[1], "Events: 0");
}

#[test]
fn app_home_screen_draws_the_menu_at_the_cursor() {
    let mut app = App::new(Battery::new(), EventLogger::new(&Vec::new()), false);
    app.state_boot();
    let screen = app.home_screen();
    assert_eq!(screen.len(), 1);
    assert_eq!(drawn(&screen[0]), vec!["Sentinel", "> Arm", "  History", "  Battery"]);
    app.state_home(TouchEvent::Tap);
    assert_eq!(drawn(&app.home_screen()[0]), vec!["Sentinel", "  Arm", "> History", "  Battery"]);
}

#[test]
fn save_plan_skips_records_when_count_fails() {
    let mut logger = EventLogger::new(&Vec::new());
    logger.log(EventKind::Armed, 1);
    logger.log(EventKind::Armed, 2);
    let plan = logger.save();
    assert_eq!(plan.records_to_write(true), 2);
    assert_eq!(plan.records_to_write(false), 0);
}

#[test]
fn logger_load_fills_an_empty_log() {
    let mut logger = EventLogger::new(&Vec::new());
    logger.load(&vec![stored(1, 9), stored(9, 10)]);
    assert_eq!(logger.entries(), &[Event { timestamp_ms: 9, kind: EventKind::Disarmed }]);
}
