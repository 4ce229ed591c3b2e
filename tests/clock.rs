use archery_timer::display::format_timestamp;
use archery_timer::policy::{ApplicationState, AudioAction, ButtonSide, Command, Config, TimerConfig};
use archery_timer::stopwatch::Timer;
use archery_timer::tracker::{ButtonTracker, TimeoutEvent, DEBOUNCE_MS, RESET_HOLD_MS};

fn lane(music: Option<&str>) -> TimerConfig {
    TimerConfig {
        color: String::from("#203040"),
        music_file: music.map(String::from),
        flipped: false,
    }
}

fn state(toggle: bool) -> ApplicationState {
    ApplicationState::new(Config {
        button_toggle: toggle,
        left_timer: lane(Some("left.ogg")),
        right_timer: lane(None),
    })
}

/// Handles every deadline due by `now`, each at its own instant, as the
/// event loop does, and returns the commands issued.
fn settle(tracker: &mut ButtonTracker, now: u64) -> Vec<Command> {
    let mut issued = Vec::new();
    while let Some(deadline) = tracker.next_deadline() {
        if deadline > now {
            break;
        }
        let event = tracker.get_timeout(deadline).expect("a deadline is due");
        if let Some(command) = tracker.timeout_update(event, deadline) {
            issued.push(command);
        }
    }
    issued
}

#[test]
fn stopwatch_accumulates_over_runs() {
    let mut t = Timer::new();
    assert!(!t.is_running());
    assert_eq!(t.get_duration(0), 0);
    t.start(1000);
    assert!(t.is_running());
    assert_eq!(t.get_duration(1500), 500);
    t.stop(2000);
    assert!(!t.is_running());
    assert_eq!(t.get_duration(2000), 1000);
    assert_eq!(t.get_duration(9000), 1000);
    t.start(10000);
    assert_eq!(t.get_duration(10250), 1250);
}

#[test]
fn stopwatch_start_twice_keeps_start_instant() {
    let mut t = Timer::new();
    t.start(100);
    t.start(400);
    assert_eq!(t.get_duration(600), 500);
}

#[test]
fn stopwatch_stop_when_idle_is_noop() {
    let mut t = Timer::new();
    t.stop(50);
    assert_eq!(t.get_duration(80), 0);
    assert!(!t.is_running());
}

#[test]
fn stopwatch_elapsed_monotonic_while_running() {
    let mut t = Timer::new();
    t.start(10);
    let mut last = 0;
    for now in [10u64, 11, 50, 50, 900, 12345] {
        let d = t.get_duration(now);
        assert!(d >= last);
        last = d;
    }
    t.stop(20000);
    assert_eq!(t.get_duration(20000), t.get_duration(99999));
}

#[test]
fn stopwatch_clear_resets_to_zero() {
    let mut t = Timer::new();
    t.start(0);
    t.clear();
    assert!(!t.is_running());
    assert_eq!(t.get_duration(5000), 0);
    t.start(6000);
    t.stop(7000);
    t.clear();
    assert_eq!(t.get_duration(8000), 0);
}

#[test]
fn format_timestamp_two_minutes_five() {
    assert_eq!(format_timestamp(125000), "02:05");
}

#[test]
fn format_timestamp_just_under_a_minute() {
    assert_eq!(format_timestamp(59999), "00:59");
}

#[test]
fn format_timestamp_zero_and_large() {
    assert_eq!(format_timestamp(0), "00:00");
    assert_eq!(format_timestamp(600000), "10:00");
    assert_eq!(format_timestamp(6_000_000 + 61_500), "101:01");
}

#[test]
fn start_left_stops_right() {
    let mut s = state(false);
    assert_eq!(s.start_right_timer(100), AudioAction::Keep);
    assert!(s.timer(ButtonSide::Right).is_running());
    assert_eq!(s.start_left_timer(600), AudioAction::Play(ButtonSide::Left));
    assert!(s.timer(ButtonSide::Left).is_running());
    assert!(!s.timer(ButtonSide::Right).is_running());
    assert_eq!(s.timer(ButtonSide::Right).get_duration(900), 500);
}

#[test]
fn start_right_stops_left() {
    let mut s = state(true);
    s.start_left_timer(0);
    s.start_right_timer(300);
    assert!(!s.timer(ButtonSide::Left).is_running());
    assert!(s.timer(ButtonSide::Right).is_running());
    assert_eq!(s.timer(ButtonSide::Left).get_duration(1000), 300);
}

#[test]
fn toggle_second_start_stops_lane() {
    let mut s = state(true);
    assert_eq!(s.start_left_timer(0), AudioAction::Play(ButtonSide::Left));
    assert!(s.timer(ButtonSide::Left).is_running());
    assert_eq!(s.start_left_timer(700), AudioAction::Keep);
    assert!(!s.timer(ButtonSide::Left).is_running());
    assert_eq!(s.timer(ButtonSide::Left).get_duration(5000), 700);
}

#[test]
fn no_toggle_second_start_keeps_running() {
    let mut s = state(false);
    s.start_left_timer(0);
    assert!(s.timer(ButtonSide::Left).is_running());
    assert_eq!(s.start_left_timer(700), AudioAction::Play(ButtonSide::Left));
    assert!(s.timer(ButtonSide::Left).is_running());
    assert_eq!(s.timer(ButtonSide::Left).get_duration(1000), 1000);
}

#[test]
fn clear_timers_zeroes_both_and_stops_audio() {
    let mut s = state(false);
    s.start_left_timer(0);
    s.start_right_timer(100);
    assert_eq!(s.clear_timers(), AudioAction::Stop);
    assert!(!s.timer(ButtonSide::Left).is_running());
    assert!(!s.timer(ButtonSide::Right).is_running());
    assert_eq!(s.timer(ButtonSide::Left).get_duration(200), 0);
    assert_eq!(s.timer(ButtonSide::Right).get_duration(200), 0);
}

#[test]
fn apply_dispatches_commands() {
    let mut s = state(false);
    assert_eq!(s.apply(Command::StartLane(ButtonSide::Right), 10), AudioAction::Keep);
    assert!(s.timer(ButtonSide::Right).is_running());
    assert_eq!(s.apply(Command::StartLane(ButtonSide::Left), 20), AudioAction::Play(ButtonSide::Left));
    assert!(!s.timer(ButtonSide::Right).is_running());
    assert_eq!(s.apply(Command::ResetAll, 30), AudioAction::Stop);
    assert_eq!(s.timer(ButtonSide::Left).get_duration(40), 0);
}

#[test]
fn config_is_kept() {
    let s = state(true);
    assert!(s.config().button_toggle);
    assert_eq!(s.config().left_timer.music_file.as_deref(), Some("left.ogg"));
    assert_eq!(s.config().right_timer.music_file, None);
}

#[test]
fn press_left_starts_left_once() {
    let mut t = ButtonTracker::new();
    t.update(ButtonSide::Left, true, 1000);
    assert_eq!(settle(&mut t, 1000 + DEBOUNCE_MS - 1), vec![]);
    assert_eq!(settle(&mut t, 1100), vec![Command::StartLane(ButtonSide::Left)]);
    assert_eq!(settle(&mut t, 10000), vec![]);
}

#[test]
fn press_both_arms_reset_then_resets_once() {
    let mut t = ButtonTracker::new();
    t.update(ButtonSide::Left, true, 1000);
    t.update(ButtonSide::Right, true, 1010);
    assert_eq!(settle(&mut t, 1100), vec![]);
    assert_eq!(t.next_deadline(), Some(1010 + DEBOUNCE_MS + RESET_HOLD_MS));
    assert_eq!(settle(&mut t, 1010 + DEBOUNCE_MS + RESET_HOLD_MS - 1), vec![]);
    assert_eq!(settle(&mut t, 5000), vec![Command::ResetAll]);
    assert_eq!(t.next_deadline(), None);
}

#[test]
fn bouncing_lane_issues_one_command() {
    let mut t = ButtonTracker::new();
    let mut issued = Vec::new();
    let mut level = false;
    for i in 0..9u64 {
        let now = 500 + i * 10;
        issued.extend(settle(&mut t, now));
        level = !level;
        t.update(ButtonSide::Left, level, now);
    }
    assert!(issued.is_empty());
    issued.extend(settle(&mut t, 2000));
    assert_eq!(issued, vec![Command::StartLane(ButtonSide::Left)]);
}

#[test]
fn duplicate_level_is_ignored() {
    let mut t = ButtonTracker::new();
    t.update(ButtonSide::Right, true, 100);
    t.update(ButtonSide::Right, true, 120);
    assert_eq!(t.next_deadline(), Some(100 + DEBOUNCE_MS));
    assert_eq!(settle(&mut t, 200), vec![Command::StartLane(ButtonSide::Right)]);
}

#[test]
fn release_after_reset_starts_nothing() {
    let mut t = ButtonTracker::new();
    t.update(ButtonSide::Left, true, 0);
    t.update(ButtonSide::Right, true, 5);
    assert_eq!(settle(&mut t, 4000), vec![Command::ResetAll]);
    t.update(ButtonSide::Left, false, 5000);
    assert_eq!(settle(&mut t, 6000), vec![]);
    t.update(ButtonSide::Right, false, 7000);
    assert_eq!(settle(&mut t, 8000), vec![]);
    t.update(ButtonSide::Right, true, 9000);
    assert_eq!(settle(&mut t, 9100), vec![Command::StartLane(ButtonSide::Right)]);
}

#[test]
fn get_timeout_picks_earlier_deadline() {
    let mut t = ButtonTracker::new();
    assert_eq!(t.get_timeout(1_000_000), None);
    t.update(ButtonSide::Left, true, 0);
    t.update(ButtonSide::Right, true, 0);
    assert_eq!(t.get_timeout(10), None);
    assert_eq!(t.get_timeout(DEBOUNCE_MS), Some(TimeoutEvent::TickTimeout));
    assert_eq!(t.timeout_update(TimeoutEvent::TickTimeout, DEBOUNCE_MS), None);
    t.update(ButtonSide::Left, false, RESET_HOLD_MS + 20);
    assert_eq!(t.get_timeout(RESET_HOLD_MS + 100), Some(TimeoutEvent::ResetTimeout));
    assert_eq!(t.get_timeout(RESET_HOLD_MS + 100), Some(TimeoutEvent::TickTimeout));
    assert_eq!(t.get_timeout(RESET_HOLD_MS + 100), None);
}

#[test]
fn single_lane_tick_cancels_reset_countdown() {
    let mut t = ButtonTracker::new();
    t.update(ButtonSide::Left, true, 0);
    t.update(ButtonSide::Right, true, 0);
    assert_eq!(settle(&mut t, 100), vec![]);
    t.update(ButtonSide::Right, false, 1000);
    assert_eq!(settle(&mut t, 10000), vec![Command::StartLane(ButtonSide::Left)]);
}

#[test]
fn last_instant_follows_calls() {
    let mut s = state(false);
    assert_eq!(s.last_instant(), 0);
    s.start_left_timer(40);
    assert_eq!(s.last_instant(), 40);
    assert_eq!(s.timer(ButtonSide::Left).last_instant(), 40);
    s.clear_timers();
    assert_eq!(s.last_instant(), 40);
}
