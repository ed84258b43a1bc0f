use std::sync::mpsc;
use yap_supervisor::logwriter::{
    choose_log_target, log_and_print, log_message, log_target, make_app_line, rotation_victims, shutdown_logger,
    writer_step, LogFileEntry, LogMsg, LogTarget, Logger, WriterAction, MAX_LOG_FILES,
};

fn log_file(t: u64) -> LogFileEntry {
    LogFileEntry { is_log: true, created: Some(t) }
}

#[test]
fn rotation_deletes_the_two_oldest_of_twelve() {
    let times = [50u64, 10, 70, 20, 90, 30, 110, 40, 130, 60, 150, 80];
    let entries: Vec<LogFileEntry> = times.iter().map(|&t| log_file(t)).collect();
    let victims = rotation_victims(&entries, MAX_LOG_FILES);
    assert_eq!(victims, vec![1, 3]);
    assert_eq!(entries.len() - victims.len(), MAX_LOG_FILES);
}

#[test]
fn rotation_ignores_other_files() {
    let mut entries = vec![log_file(5), log_file(1), log_file(3)];
    entries.push(LogFileEntry { is_log: false, created: Some(0) });
    assert_eq!(rotation_victims(&entries, 2), vec![1]);
    assert_eq!(rotation_victims(&entries, 3), Vec::<usize>::new());
    assert_eq!(rotation_victims(&entries, 0), vec![0, 1, 2]);
}

#[test]
fn rotation_treats_unknown_time_as_oldest_and_ties_by_listing() {
    let entries = vec![log_file(4), log_file(4), LogFileEntry { is_log: true, created: None }, log_file(9)];
    assert_eq!(rotation_victims(&entries, 2), vec![0, 2]);
}

#[test]
fn rotation_with_nothing_to_delete() {
    assert!(rotation_victims(&Vec::new(), 10).is_empty());
    let entries: Vec<LogFileEntry> = (0..10).map(log_file).collect();
    assert!(rotation_victims(&entries, 10).is_empty());
}

#[test]
fn override_path_wins_over_generated_name() {
    match choose_log_target(Some("/tmp/x.log".to_string()), "01-02-25_03-04-05.log".to_string()) {
        LogTarget::Override(p) => assert_eq!(p, "/tmp/x.log"),
        LogTarget::InLogDir(_) => panic!("expected the override"),
    }
    match choose_log_target(None, "01-02-25_03-04-05.log".to_string()) {
        LogTarget::InLogDir(n) => assert_eq!(n, "01-02-25_03-04-05.log"),
        LogTarget::Override(_) => panic!("expected a generated name"),
    }
}

#[test]
fn generated_log_name_has_the_file_layout() {
    match log_target(None) {
        LogTarget::InLogDir(n) => {
            assert_eq!(n.len(), "01-02-25_03-04-05.log".len());
            assert!(n.ends_with(".log"));
            assert!(!n.contains('%'));
        }
        LogTarget::Override(_) => panic!("expected a generated name"),
    }
}

#[test]
fn writer_steps() {
    match writer_step(LogMsg::Line("abc".to_string())) {
        WriterAction::AppendAndRotate(l) => assert_eq!(l, "abc"),
        WriterAction::FlushAndStop => panic!("expected a write"),
    }
    assert!(matches!(writer_step(LogMsg::Shutdown), WriterAction::FlushAndStop));
}

#[test]
fn logger_queues_lines_and_shutdown() {
    let (tx, rx) = mpsc::channel();
    let mut logger = Logger::new(tx);
    assert!(log_message(&mut logger, "first"));
    assert!(logger.log("second".to_string()));
    assert!(shutdown_logger(&mut logger));
    match rx.recv().unwrap() {
        LogMsg::Line(l) => assert_eq!(l, "first"),
        LogMsg::Shutdown => panic!("expected a line"),
    }
    match rx.recv().unwrap() {
        LogMsg::Line(l) => assert_eq!(l, "second"),
        LogMsg::Shutdown => panic!("expected a line"),
    }
    assert!(matches!(rx.recv().unwrap(), LogMsg::Shutdown));
    drop(rx);
    assert!(!log_message(&mut logger, "lost"));
    assert!(!shutdown_logger(&mut logger));
}

#[test]
fn application_lines_carry_tag_and_stamp() {
    assert_eq!(
        make_app_line("01/02/2025 - 03:04:05", "[GUI] closed"),
        "[TwitchYapBot.exe] [01/02/2025 - 03:04:05]: [GUI] closed"
    );
    let (tx, rx) = mpsc::channel();
    let mut logger = Logger::new(tx);
    let logged = log_and_print(&mut logger, "hi");
    assert!(logged.value);
    match rx.recv().unwrap() {
        LogMsg::Line(l) => {
            assert_eq!(l, format!("[TwitchYapBot.exe] [{}]: hi", logged.stamp));
            assert!(l.starts_with("[TwitchYapBot.exe] ["));
            assert!(l.ends_with("]: hi"));
            assert_eq!(l.len(), "[TwitchYapBot.exe] [01/02/2025 - 03:04:05]: hi".len());
        }
        LogMsg::Shutdown => panic!("expected a line"),
    }
}
