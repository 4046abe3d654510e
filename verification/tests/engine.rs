use rtodo::entry::{Action, DoIfRunning, Entry, Execute, Logger, Status, Timer, Trigger, TriggerState};
use rtodo::time::{duration_offset_seconds, shift_timestamp, DateTime, Duration, TimeZone};
use rtodo::work::{Process, Work, WorkError};

fn zero_duration() -> Duration {
    Duration { year: 0, month: 0, day: 0, hour: 0, min: 0, sec: 0, total_sec: 0 }
}

fn simple_execute() -> Execute {
    Execute {
        env: None,
        working_dir: None,
        executable: "/bin/true".to_string(),
        user: None,
        args: None,
    }
}

fn entry_with(trigger: Trigger, action: Action) -> Entry {
    Entry {
        id: 0,
        name: "job".to_string(),
        action,
        logger: Logger::Default,
        trigger,
        status: Status::Pending,
        do_if_running: DoIfRunning::StartNew,
        enabled: true,
    }
}

fn work_for(trigger: Trigger, action: Action, at: &DateTime) -> Work {
    let entry = entry_with(trigger, action);
    let trigger_state = TriggerState::from_entry_at(&entry, at);
    Work { status: Status::Pending, entry, trigger_state, running_processes: Vec::new() }
}

fn noon() -> DateTime {
    DateTime::from_ymd_hms(2021, 6, 15, 12, 0, 0).expect("noon must resolve")
}

#[test]
fn offset_seconds_exact_formula() {
    let d = Duration { year: 1, month: 1, day: 1, hour: 1, min: 1, sec: 1, total_sec: 0 };
    assert_eq!(duration_offset_seconds(&d), 1 + 60 + 3600 + (1 + 30 + 365) * 86400);
}

#[test]
fn offset_round_trip_returns_to_base() {
    let d = Duration { year: 0, month: 2, day: 3, hour: 4, min: 5, sec: 6, total_sec: 0 };
    let t = noon();
    let off = duration_offset_seconds(&d);
    let t2 = DateTime::advance_instant(&t, &d).expect("advance stays in range");
    assert_eq!(t2.timestamp - off, t.timestamp);
    assert_eq!(shift_timestamp(t2.timestamp, &zero_duration()), Some(t2.timestamp));
}

#[test]
fn advance_instant_moves_by_exact_offset() {
    let d = Duration { year: 0, month: 0, day: 1, hour: 1, min: 0, sec: 0, total_sec: 0 };
    let t = noon();
    let t2 = DateTime::advance_instant(&t, &d).expect("advance stays in range");
    assert_eq!(t2.timestamp, t.timestamp + 90000);
    assert!(matches!(t2.time_zone, TimeZone::Local));
}

#[test]
fn shift_timestamp_overflow_is_none() {
    let d = Duration { year: 0, month: 0, day: 1, hour: 0, min: 0, sec: 0, total_sec: 0 };
    assert_eq!(shift_timestamp(i64::MAX - 10, &d), None);
    assert_eq!(shift_timestamp(100, &d), Some(100 + 86400));
}

#[test]
fn from_ymd_hms_echoes_fields() {
    let t = noon();
    assert_eq!(t.year, 2021);
    assert_eq!(t.month, 6);
    assert_eq!(t.day, 15);
    assert_eq!(t.hour, 12);
    assert_eq!(t.min, 0);
    assert_eq!(t.sec, 0);
    assert!(matches!(t.time_zone, TimeZone::Local));
}

#[test]
fn from_ymd_hms_rejects_bad_calendar() {
    assert!(DateTime::from_ymd_hms(2021, 13, 1, 0, 0, 0).is_none());
    assert!(DateTime::from_ymd_hms(2021, 2, 30, 0, 0, 0).is_none());
    assert!(DateTime::from_ymd_hms(2021, 1, 1, 25, 0, 0).is_none());
}

#[test]
fn now_fields_in_range() {
    let n = DateTime::now();
    assert!(n.month >= 1 && n.month <= 12);
    assert!(n.day >= 1 && n.day <= 31);
    assert!(n.hour <= 23);
    assert!(n.min <= 59);
    assert!(n.sec <= 59);
}

#[test]
fn one_day_from_advances_by_a_day_of_seconds() {
    let t = noon();
    let t2 = DateTime::one_day_from(&t).expect("one day past noon stays in range");
    assert_eq!(t2.timestamp, t.timestamp + 86400);
    assert!(t2.month >= 1 && t2.month <= 12);
    assert!(t2.day >= 1 && t2.day <= 31);
}

#[test]
fn one_day_is_a_valid_calendar_time() {
    let t = DateTime::one_day();
    assert!(t.month >= 1 && t.month <= 12);
    assert!(t.day >= 1 && t.day <= 31);
    assert!(t.hour <= 23);
}

#[test]
fn from_duration_lands_one_day_out() {
    let before = DateTime::now();
    let d = Duration::one_day();
    let r = DateTime::from_duration(&d).expect("now plus a day stays in range");
    let after = DateTime::now();
    assert!(r.timestamp >= before.timestamp + 86400);
    assert!(r.timestamp <= after.timestamp + 86400);
}

#[test]
fn is_up_at_compares_stored_timestamps() {
    let t = noon();
    let later = DateTime { timestamp: t.timestamp + 1, ..t };
    assert!(t.is_up_at(&t));
    assert!(t.is_up_at(&later));
    assert!(!later.is_up_at(&t));
}

#[test]
fn is_up_one_second_in_future_is_not_up() {
    let n = DateTime::now();
    let future = DateTime { timestamp: n.timestamp + 1, ..n };
    assert!(!future.is_up_at(&n));
    assert!(n.is_up_at(&n));
    let past = DateTime::from_ymd_hms(1990, 1, 1, 12, 0, 0).expect("past date resolves");
    assert!(past.is_up());
}

#[test]
fn duration_one_day_matches_the_seconds_formula() {
    let d = Duration::one_day();
    assert_eq!(d.day, 1);
    assert_eq!(d.sec, 0);
    assert_eq!(d.total_sec, 86400);
}

#[test]
fn trigger_state_from_entry_table() {
    let t0 = noon();
    let once_at = DateTime { timestamp: 777, ..t0 };
    let e_once = entry_with(Trigger::Timer(Timer::Once(once_at)), Action::Nothing);
    let ts = TriggerState::from_entry_at(&e_once, &t0);
    assert_eq!(ts.exec_time, Some(once_at));
    assert_eq!(ts.exec_times, 0);

    let e_never = entry_with(Trigger::Timer(Timer::Never), Action::Nothing);
    let ts = TriggerState::from_entry_at(&e_never, &t0);
    assert_eq!(ts.exec_time, None);

    let e_none = entry_with(Trigger::Nothing, Action::Nothing);
    let ts = TriggerState::from_entry_at(&e_none, &t0);
    assert_eq!(ts.exec_time, None);

    let e_rep = entry_with(
        Trigger::Timer(Timer::Repeat(Duration::one_day())),
        Action::Nothing,
    );
    let ts = TriggerState::from_entry_at(&e_rep, &t0);
    assert_eq!(ts.exec_time.unwrap().timestamp, t0.timestamp + 86400);
    assert_eq!(ts.exec_times, 0);
}

#[test]
fn repeat_daily_scenario_advances_cursor() {
    let t0 = noon();
    let d = Duration { year: 0, month: 0, day: 1, hour: 0, min: 0, sec: 0, total_sec: 0 };
    let mut w = work_for(
        Trigger::Timer(Timer::Repeat(d)),
        Action::Exec(simple_execute()),
        &t0,
    );
    assert_eq!(w.trigger_state.exec_time.unwrap().timestamp, t0.timestamp + 86400);
    assert_eq!(w.trigger_state.exec_times, 0);

    let r = w.start();
    assert_eq!(r, Ok(true));
    assert_eq!(w.trigger_state.exec_times, 1);
    assert_eq!(w.trigger_state.exec_time.unwrap().timestamp, t0.timestamp + 2 * 86400);
    // The firing alone does not mark the job running: the spawn outcome does.
    assert!(matches!(w.status, Status::Pending));
    assert!(w.running_processes.is_empty());
    w.record_spawn(4242);
    assert!(matches!(w.status, Status::Running));
    assert_eq!(w.running_processes.len(), 1);
    assert_eq!(w.running_processes[0].pid, 4242);
}

#[test]
fn once_fires_exactly_once_then_pauses() {
    let t0 = noon();
    let mut w = work_for(
        Trigger::Timer(Timer::Once(t0)),
        Action::Exec(simple_execute()),
        &t0,
    );
    let r = w.start();
    assert_eq!(r, Ok(true));
    assert!(matches!(w.status, Status::Paused));
    assert_eq!(w.trigger_state.exec_times, 1);
    // A one-shot job stays paused even once its spawn is recorded.
    w.record_spawn(7);
    assert!(matches!(w.status, Status::Paused));
    assert_eq!(w.running_processes.len(), 1);

    let r2 = w.start();
    assert_eq!(r2, Err(WorkError::ExecutedTwice));
    assert_eq!(w.trigger_state.exec_times, 1);
    assert!(matches!(w.status, Status::Paused));
}

#[test]
fn many_times_counts_up_then_fails() {
    let t0 = noon();
    let d = Duration { year: 0, month: 0, day: 0, hour: 1, min: 0, sec: 0, total_sec: 0 };
    let mut w = work_for(
        Trigger::Timer(Timer::ManyTimes(d, 2)),
        Action::Exec(simple_execute()),
        &t0,
    );
    assert_eq!(w.start(), Ok(true));
    assert_eq!(w.trigger_state.exec_times, 1);
    assert_eq!(w.start(), Ok(true));
    assert_eq!(w.trigger_state.exec_times, 2);
    let third = w.start();
    assert_eq!(third, Err(WorkError::ExceededTimes));
    assert_eq!(w.trigger_state.exec_times, 2);
}

#[test]
fn never_timer_refuses_to_start() {
    let t0 = noon();
    let mut w = work_for(
        Trigger::Timer(Timer::Never),
        Action::Exec(simple_execute()),
        &t0,
    );
    assert_eq!(w.start(), Err(WorkError::NeverTimer));
    assert!(matches!(w.status, Status::Pending));
}

#[test]
fn no_trigger_fires_without_spawn_or_status_change() {
    let t0 = noon();
    let mut w = work_for(Trigger::Nothing, Action::Exec(simple_execute()), &t0);
    assert_eq!(w.start(), Ok(false));
    assert!(matches!(w.status, Status::Pending));
    assert!(w.running_processes.is_empty());
}

#[test]
fn no_action_start_is_a_noop() {
    let t0 = noon();
    let mut w = work_for(Trigger::Timer(Timer::Never), Action::Nothing, &t0);
    assert_eq!(w.start(), Ok(false));
    assert!(matches!(w.status, Status::Pending));
}

#[test]
fn invalid_time_leaves_state_unchanged() {
    let t0 = noon();
    let d = Duration { year: 0, month: 0, day: 1, hour: 0, min: 0, sec: 0, total_sec: 0 };
    let mut w = work_for(
        Trigger::Timer(Timer::Repeat(d)),
        Action::Exec(simple_execute()),
        &t0,
    );
    w.trigger_state.exec_time = Some(DateTime { timestamp: i64::MAX - 10, ..t0 });
    assert_eq!(w.start(), Err(WorkError::InvalidTime));
    assert_eq!(w.trigger_state.exec_times, 0);
    assert!(matches!(w.status, Status::Pending));
}

#[test]
fn stop_drains_processes_and_pauses() {
    let t0 = noon();
    let mut w = work_for(
        Trigger::Timer(Timer::Never),
        Action::Exec(simple_execute()),
        &t0,
    );
    w.running_processes = vec![
        Process { pid: 11, output_tmp_file: None },
        Process { pid: 22, output_tmp_file: Some("/tmp/o".to_string()) },
    ];
    let removed = w.stop();
    assert_eq!(removed.len(), 2);
    assert_eq!(removed[0].pid, 11);
    assert_eq!(removed[1].pid, 22);
    assert!(w.running_processes.is_empty());
    assert!(matches!(w.status, Status::Paused));
}

#[test]
fn stop_without_action_changes_nothing() {
    let t0 = noon();
    let mut w = work_for(Trigger::Nothing, Action::Nothing, &t0);
    w.running_processes = vec![Process { pid: 5, output_tmp_file: None }];
    let removed = w.stop();
    assert!(removed.is_empty());
    assert_eq!(w.running_processes.len(), 1);
    assert!(matches!(w.status, Status::Pending));
}

#[test]
fn restart_stops_then_starts() {
    let t0 = noon();
    let d = Duration { year: 0, month: 0, day: 0, hour: 2, min: 0, sec: 0, total_sec: 0 };
    let mut w = work_for(
        Trigger::Timer(Timer::Repeat(d)),
        Action::Exec(simple_execute()),
        &t0,
    );
    w.running_processes = vec![Process { pid: 9, output_tmp_file: None }];
    let (removed, started) = w.restart();
    assert_eq!(removed.len(), 1);
    assert_eq!(started, Ok(true));
    assert!(w.running_processes.is_empty());
    assert!(matches!(w.status, Status::Paused));
    assert_eq!(w.trigger_state.exec_times, 1);
    w.record_spawn(13);
    assert!(matches!(w.status, Status::Running));
}

#[test]
fn work_error_descriptions() {
    assert_eq!(WorkError::InvalidTime.describe(), "Error: Invalid time");
    assert_eq!(
        WorkError::ExecutedTwice.describe(),
        "Error: Entry with Once timer executed twice!"
    );
    assert_eq!(
        WorkError::ExceededTimes.describe(),
        "Error: Entry with ManyTimes timer executed exceeded times!"
    );
    assert_eq!(
        WorkError::NeverTimer.describe(),
        "Error: Entry with a Never Timer executed!"
    );
}

#[test]
fn entry_new_defaults() {
    let e = Entry::new(
        Trigger::Nothing,
        Logger::Default,
        Action::Nothing,
        DoIfRunning::StartNew,
        Status::Pending,
    );
    assert_eq!(e.id, 0);
    assert_eq!(e.name, "");
    assert!(e.enabled);
    assert!(matches!(e.trigger, Trigger::Nothing));
}

#[test]
fn timestamp_method_reads_cached_value() {
    let t = noon();
    assert_eq!(t.timestamp(), t.timestamp);
}

#[test]
fn add_duration_resolves_fields_then_shifts() {
    let t = noon();
    let d = Duration { year: 0, month: 0, day: 0, hour: 0, min: 30, sec: 0, total_sec: 0 };
    let r = t.add_duration(&d).expect("half an hour past noon resolves");
    assert_eq!(r.timestamp, t.timestamp + 1800);
}

#[test]
fn from_entry_reads_the_clock() {
    let d = Duration::one_day();
    let e = entry_with(Trigger::Timer(Timer::Repeat(d)), Action::Nothing);
    let before = DateTime::now();
    let ts = TriggerState::from_entry(&e);
    let after = DateTime::now();
    let due = ts.exec_time.expect("one day out stays in range");
    assert!(due.timestamp >= before.timestamp + 86400);
    assert!(due.timestamp <= after.timestamp + 86400);
    assert_eq!(ts.exec_times, 0);

    let never = entry_with(Trigger::Timer(Timer::Never), Action::Nothing);
    assert_eq!(TriggerState::from_entry(&never).exec_time, None);
}

#[test]
fn many_times_at_bound_needs_no_cursor() {
    let t0 = noon();
    let d = Duration { year: 0, month: 0, day: 0, hour: 1, min: 0, sec: 0, total_sec: 0 };
    let mut w = work_for(
        Trigger::Timer(Timer::ManyTimes(d, 0)),
        Action::Exec(simple_execute()),
        &t0,
    );
    w.trigger_state.exec_time = None;
    assert_eq!(w.start(), Err(WorkError::ExceededTimes));
    assert_eq!(w.trigger_state.exec_times, 0);
}
