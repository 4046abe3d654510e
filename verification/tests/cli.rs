use rtodo::args::{
    check_if_help_in_args, parse_env_pairs, parse_i32, parse_identifier, parse_u32,
    split_by_char, username_from_args, ArgError, Operation, OperationType,
};
use rtodo::entry::{
    Action, CommandHelp, DoIfRunning, Entry, EntryIdentifier, Execute, Logger, Status, Timer,
    Trigger,
};
use rtodo::time::{DateTime, Duration};

fn argv(parts: &[&str]) -> Vec<String> {
    parts.iter().map(|p| p.to_string()).collect()
}

#[test]
fn parse_u32_accepts_digits_and_plus() {
    assert_eq!(parse_u32("42"), Some(42));
    assert_eq!(parse_u32("+7"), Some(7));
    assert_eq!(parse_u32("0"), Some(0));
    assert_eq!(parse_u32("4294967295"), Some(u32::MAX));
}

#[test]
fn parse_u32_rejects_junk_and_overflow() {
    assert_eq!(parse_u32(""), None);
    assert_eq!(parse_u32("+"), None);
    assert_eq!(parse_u32("abc"), None);
    assert_eq!(parse_u32("12a"), None);
    assert_eq!(parse_u32("-3"), None);
    assert_eq!(parse_u32("4294967296"), None);
}

#[test]
fn parse_i32_handles_signs_and_limits() {
    assert_eq!(parse_i32("-5"), Some(-5));
    assert_eq!(parse_i32("+9"), Some(9));
    assert_eq!(parse_i32("2147483647"), Some(i32::MAX));
    assert_eq!(parse_i32("-2147483648"), Some(i32::MIN));
    assert_eq!(parse_i32("2147483648"), None);
    assert_eq!(parse_i32("-2147483649"), None);
    assert_eq!(parse_i32("--5"), None);
}

#[test]
fn duration_from_args_reads_fields() {
    let d = Duration::from_args(&argv(&["--day", "2", "--sec", "5"])).unwrap();
    assert_eq!(d.day, 2);
    assert_eq!(d.sec, 5);
    assert_eq!(d.min, 0);
    assert_eq!(d.total_sec, 2 * 86400 + 5);
}

#[test]
fn duration_from_args_none_without_flags() {
    assert_eq!(Duration::from_args(&argv(&["whatever"])), None);
}

#[test]
fn duration_flag_without_value_still_counts() {
    let d = Duration::from_args(&argv(&["--day"])).unwrap();
    assert_eq!(d.day, 0);
    assert_eq!(d.total_sec, 0);
}

#[test]
fn duration_last_readable_value_wins() {
    let d = Duration::from_args(&argv(&["--day", "2", "--day", "3"])).unwrap();
    assert_eq!(d.day, 3);
    let d = Duration::from_args(&argv(&["--day", "2", "--day", "oops"])).unwrap();
    assert_eq!(d.day, 2);
}

#[test]
fn datetime_from_args_reads_fields_without_timestamp() {
    let t = DateTime::from_args(&argv(&["--year", "2021", "--month", "6", "--day", "15"]))
        .unwrap();
    assert_eq!(t.year, 2021);
    assert_eq!(t.month, 6);
    assert_eq!(t.day, 15);
    assert_eq!(t.hour, 0);
    assert_eq!(t.timestamp, 0);
    assert_eq!(DateTime::from_args(&argv(&["nothing"])), None);
}

#[test]
fn timer_never_alone_is_no_timer() {
    assert_eq!(Timer::from_args(&argv(&["--never"])), None);
    assert!(matches!(Trigger::from_args(&argv(&["--never"])), Trigger::Nothing));
}

#[test]
fn timer_repeat_defaults_to_one_day() {
    let t = Timer::from_args(&argv(&["--repeat"])).unwrap();
    match t {
        Timer::Repeat(d) => {
            assert_eq!(d.day, 1);
            assert_eq!(d.total_sec, 86400);
        },
        _ => panic!("expected a repeat timer"),
    }
}

#[test]
fn timer_repeat_takes_duration_flags() {
    let t = Timer::from_args(&argv(&["--repeat", "--hour", "6"])).unwrap();
    match t {
        Timer::Repeat(d) => {
            assert_eq!(d.hour, 6);
            assert_eq!(d.day, 0);
        },
        _ => panic!("expected a repeat timer"),
    }
}

#[test]
fn timer_once_resolves_fields_to_an_instant() {
    let t = Timer::from_args(&argv(&["--once", "--year", "2030", "--month", "1", "--day", "2"]))
        .unwrap();
    match t {
        Timer::Once(dt) => {
            assert_eq!(dt.year, 2030);
            assert_eq!(dt.month, 1);
            assert_eq!(dt.day, 2);
            // The timestamp cache is derived, so the due check sees 2030,
            // not the epoch.
            assert!(dt.timestamp > 1_500_000_000);
        },
        _ => panic!("expected a once timer"),
    }
}

#[test]
fn timer_once_with_unresolvable_fields_falls_back_to_tomorrow() {
    let t = Timer::from_args(&argv(&["--once", "--month", "13"])).unwrap();
    match t {
        Timer::Once(dt) => {
            assert!(dt.month >= 1 && dt.month <= 12);
            assert!(dt.day >= 1 && dt.day <= 31);
        },
        _ => panic!("expected a once timer"),
    }
}

#[test]
fn timer_last_flag_wins() {
    assert_eq!(Timer::from_args(&argv(&["--repeat", "--never"])), Some(Timer::Never));
}

#[test]
fn status_from_args_paused_flag() {
    assert!(matches!(Status::from_args(&argv(&["--paused"])), Status::Paused));
    assert!(matches!(Status::from_args(&argv(&["x"])), Status::Pending));
}

#[test]
fn do_if_running_last_flag_wins() {
    assert!(matches!(DoIfRunning::from_args(&argv(&[]) ), DoIfRunning::StartNew));
    assert!(matches!(
        DoIfRunning::from_args(&argv(&["--stop-ir", "--cont-ir"])),
        DoIfRunning::Continue
    ));
    assert!(matches!(DoIfRunning::from_args(&argv(&["--rest-ir"])), DoIfRunning::Restart));
}

#[test]
fn logger_from_args_variants() {
    assert!(matches!(Logger::from_args(&argv(&[])), Logger::Default));
    assert_eq!(
        Logger::from_args(&argv(&["--log-file", "f.log"])),
        Logger::File("f.log".to_string())
    );
    assert!(matches!(Logger::from_args(&argv(&["--log-file"])), Logger::Off));
    assert!(matches!(Logger::from_args(&argv(&["--log-off"])), Logger::Off));
}

#[test]
fn split_by_char_keeps_empty_pieces() {
    let v = split_by_char("a b", ' ');
    assert_eq!(v, vec!["a".to_string(), "b".to_string()]);
    let v = split_by_char("a  b", ' ');
    assert_eq!(v, vec!["a".to_string(), "".to_string(), "b".to_string()]);
    let v = split_by_char("", ' ');
    assert_eq!(v, vec!["".to_string()]);
}

#[test]
fn env_pairs_split_at_first_equals() {
    let pairs = parse_env_pairs("A=1 B=2 C");
    assert_eq!(
        pairs,
        vec![
            ("A".to_string(), "1".to_string()),
            ("B".to_string(), "2".to_string()),
        ]
    );
    let pairs = parse_env_pairs("K=a=b");
    assert_eq!(pairs, vec![("K".to_string(), "a=b".to_string())]);
    assert_eq!(parse_env_pairs(""), Vec::<(String, String)>::new());
}

#[test]
fn execute_from_args_collects_every_part() {
    let e = Execute::from_args(&argv(&[
        "--exec", "/bin/ls", "--args", "a b", "--dir", "/tmp", "--env", "A=1 B=2",
    ]))
    .unwrap();
    assert_eq!(e.executable, "/bin/ls");
    assert_eq!(e.args, Some(vec!["a".to_string(), "b".to_string()]));
    assert_eq!(e.working_dir, Some("/tmp".to_string()));
    assert_eq!(
        e.env,
        Some(vec![
            ("A".to_string(), "1".to_string()),
            ("B".to_string(), "2".to_string()),
        ])
    );
    assert!(e.user.is_none());
}

#[test]
fn execute_from_args_needs_an_executable() {
    assert!(Execute::from_args(&argv(&["--env", "A=1"])).is_none());
    assert!(Execute::from_args(&argv(&["--exec"])).is_none());
}

#[test]
fn action_from_args_wraps_execute() {
    assert!(matches!(Action::from_args(&argv(&["--exec", "/bin/true"])), Action::Exec(_)));
    assert!(matches!(Action::from_args(&argv(&["--paused"])), Action::Nothing));
}

#[test]
fn username_from_args_takes_following_value() {
    assert_eq!(username_from_args(&argv(&["--username", "bob"])), Some("bob".to_string()));
    assert_eq!(username_from_args(&argv(&["--username"])), None);
    assert_eq!(username_from_args(&argv(&[])), None);
}

#[test]
fn entry_from_args_name_and_disable() {
    let e = Entry::from_args(
        &argv(&["--name", "mine", "--disable"]),
        "fallback".to_string(),
        Trigger::Nothing,
        Logger::Default,
        Action::Nothing,
        DoIfRunning::StartNew,
        Status::Pending,
    )
    .unwrap();
    assert_eq!(e.name, "mine");
    assert!(!e.enabled);
    assert_eq!(e.id, 0);

    let e = Entry::from_args(
        &argv(&["--paused"]),
        "fallback".to_string(),
        Trigger::Nothing,
        Logger::Default,
        Action::Nothing,
        DoIfRunning::StartNew,
        Status::Pending,
    )
    .unwrap();
    assert_eq!(e.name, "fallback");
    assert!(e.enabled);
}

#[test]
fn entry_from_args_trailing_name_fails() {
    let r = Entry::from_args(
        &argv(&["--name"]),
        "fallback".to_string(),
        Trigger::Nothing,
        Logger::Default,
        Action::Nothing,
        DoIfRunning::StartNew,
        Status::Pending,
    );
    assert_eq!(r, Err(ArgError::InvalidArgument));
}

#[test]
fn parse_identifier_numbers_are_ids() {
    assert_eq!(parse_identifier(&"5".to_string()), EntryIdentifier::Id(5));
    assert_eq!(
        parse_identifier(&"job".to_string()),
        EntryIdentifier::Name("job".to_string())
    );
}

#[test]
fn operation_delete_by_id_or_name() {
    let r = Operation::from_args(&argv(&["prog", "delete", "5"]), "rnd".to_string());
    assert_eq!(r, Ok(Operation::Delete(EntryIdentifier::Id(5))));
    let r = Operation::from_args(&argv(&["prog", "delete", "job"]), "rnd".to_string());
    assert_eq!(r, Ok(Operation::Delete(EntryIdentifier::Name("job".to_string()))));
}

#[test]
fn operation_add_builds_entry() {
    let r = Operation::from_args(
        &argv(&["prog", "add", "--exec", "/bin/true", "--repeat", "--day", "1"]),
        "rnd".to_string(),
    )
    .unwrap();
    match r {
        Operation::Add(e) => {
            assert_eq!(e.name, "rnd");
            assert!(e.enabled);
            match e.action {
                Action::Exec(ex) => assert_eq!(ex.executable, "/bin/true"),
                Action::Nothing => panic!("expected an exec action"),
            }
            match e.trigger {
                Trigger::Timer(Timer::Repeat(d)) => assert_eq!(d.day, 1),
                _ => panic!("expected a repeat trigger"),
            }
        },
        _ => panic!("expected an add operation"),
    }
}

#[test]
fn operation_misc_words() {
    let r = Operation::from_args(&argv(&["prog", "list"]), "rnd".to_string());
    assert_eq!(r, Ok(Operation::List()));
    let r = Operation::from_args(&argv(&["prog", "version"]), "rnd".to_string());
    assert_eq!(r, Ok(Operation::Version));
    let r = Operation::from_args(&argv(&["prog", "bogus"]), "rnd".to_string());
    assert_eq!(r, Ok(Operation::Help(None)));
    let r = Operation::from_args(&argv(&["prog", "start-daemon"]), "rnd".to_string());
    assert_eq!(r, Ok(Operation::StartDaemon()));
}

#[test]
fn operation_help_flag_overrides() {
    let r = Operation::from_args(&argv(&["prog", "add", "--help"]), "rnd".to_string());
    assert_eq!(r, Ok(Operation::Help(Some(OperationType::Add))));
    let r = Operation::from_args(&argv(&["prog", "delete", "--help"]), "rnd".to_string());
    assert_eq!(r, Ok(Operation::Help(Some(OperationType::Delete))));
    assert!(check_if_help_in_args(&argv(&["x", "--help"])));
    assert!(!check_if_help_in_args(&argv(&["x"])));
}

#[test]
fn do_if_running_help_text() {
    let help = DoIfRunning::cmd_help();
    assert_eq!(
        help,
        "--rest-ir: Restart if work is running\n--stop-ir: Stop if work is running\n--cont-ir: Continue if work is running\n--stne-ir: Start new if work is running\n"
    );
}
