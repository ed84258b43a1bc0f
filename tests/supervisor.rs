use yap_supervisor::pump::{pump_line, StreamKind};
use yap_supervisor::ring::LogRing;
use yap_supervisor::supervisor::{
    launch_plan, restart_bot, restart_bot_at, run_markov_chain_bot, stop_bot, stop_bot_at, Supervisor,
    SupervisorError, SENTINEL,
};

const STAMP: &str = "01/02/2025 - 03:04:05";

fn running(pid: u32) -> Supervisor {
    let mut sup = Supervisor::new();
    assert_eq!(sup.record_spawn(Some(pid)), Ok(pid));
    sup
}

fn sentinel_count(ring: &LogRing) -> usize {
    ring.snapshot().iter().filter(|l| l.contains(SENTINEL)).count()
}

#[test]
fn stop_of_running_child_orders_kill_and_logs_sentinel() {
    let mut sup = running(4242);
    let mut ring = LogRing::new(10);
    let order = stop_bot_at(&mut sup, &mut ring, STAMP).unwrap();
    assert_eq!(order.pid, 4242);
    assert_eq!(order.notice, "[DEBUG] Ran: taskkill /PID 4242 /F /T");
    assert!(!sup.is_running());
    assert_eq!(
        ring.snapshot(),
        vec!["[01/02/2025 - 03:04:05] Yap Bot has been destroyed by your own hands...".to_string()]
    );
}

#[test]
fn stopping_twice_logs_one_sentinel() {
    let mut sup = running(7);
    let mut ring = LogRing::new(10);
    assert!(stop_bot_at(&mut sup, &mut ring, STAMP).is_some());
    assert!(stop_bot_at(&mut sup, &mut ring, "01/02/2025 - 03:04:06").is_none());
    assert_eq!(sentinel_count(&ring), 1);
    assert_eq!(ring.len(), 1);
}

#[test]
fn stop_without_child_changes_nothing() {
    let mut sup = Supervisor::new();
    let mut ring = LogRing::new(10);
    ring.push("old".to_string());
    assert!(stop_bot_at(&mut sup, &mut ring, STAMP).is_none());
    assert_eq!(ring.snapshot(), vec!["old".to_string()]);
}

#[test]
fn restart_orders_sentinel_message_then_output() {
    let mut sup = running(99);
    let mut ring = LogRing::new(3);
    ring.push("stale output".to_string());
    let order = restart_bot_at(&mut sup, &mut ring, "Reviving Yap Bot from the depths of hell...", STAMP);
    assert_eq!(order.unwrap().pid, 99);
    assert_eq!(sup.record_spawn(Some(100)), Ok(100));
    pump_line(&mut ring, "Bot started".to_string(), StreamKind::Stdout).unwrap();
    assert_eq!(
        ring.snapshot(),
        vec![
            "[01/02/2025 - 03:04:05] Yap Bot has been destroyed by your own hands...".to_string(),
            "[01/02/2025 - 03:04:05]: Reviving Yap Bot from the depths of hell...".to_string(),
            "Bot started".to_string(),
        ]
    );
    assert_eq!(sup.child_pid, Some(100));
}

#[test]
fn restart_without_child_logs_only_the_message() {
    let mut sup = Supervisor::new();
    let mut ring = LogRing::new(5);
    assert!(restart_bot_at(&mut sup, &mut ring, "msg", STAMP).is_none());
    assert_eq!(ring.snapshot(), vec!["[01/02/2025 - 03:04:05]: msg".to_string()]);
}

#[test]
fn clock_stamped_stop_and_restart_use_the_returned_stamp() {
    let mut sup = running(5);
    let mut ring = LogRing::new(5);
    let stopped = stop_bot(&mut sup, &mut ring);
    assert_eq!(stopped.value.unwrap().pid, 5);
    assert_ne!(stopped.stamp, "%m/%d/%Y - %H:%M:%S");
    assert_eq!(stopped.stamp.len(), STAMP.len());
    assert_eq!(ring.snapshot()[0], format!("[{}] {}", stopped.stamp, SENTINEL));
    let restarted = restart_bot(&mut sup, &mut ring, "again");
    assert!(restarted.value.is_none());
    assert_eq!(ring.snapshot()[1], format!("[{}]: again", restarted.stamp));
}

#[test]
fn start_is_refused_while_running() {
    let sup = running(1);
    assert_eq!(sup.start_request(), Err(SupervisorError::AlreadyRunning));
    assert_eq!(Supervisor::new().start_request(), Ok(()));
}

#[test]
fn failed_spawn_leaves_no_child() {
    let mut sup = Supervisor::new();
    assert_eq!(sup.record_spawn(None), Err(SupervisorError::SpawnFailed));
    assert!(!sup.is_running());
    assert_eq!(sup.child_pid, None);
}

#[test]
fn launch_plan_falls_back_to_default_interpreter() {
    let plan = launch_plan("C:\\Users\\me\\AppData\\Roaming", None);
    assert_eq!(plan.program, "python");
    assert_eq!(plan.args, vec!["-u".to_string(), "MarkovChainBot.py".to_string()]);
    assert_eq!(plan.workdir, "C:\\Users\\me\\AppData\\Roaming\\YapBot\\TwitchMarkovChain");
    assert_eq!(
        plan.env,
        vec![
            ("PYTHONUNBUFFERED".to_string(), "1".to_string()),
            ("PYTHONIOENCODING".to_string(), "utf-8".to_string()),
        ]
    );
    let found = launch_plan("", Some("/usr/bin/python3".to_string()));
    assert_eq!(found.program, "/usr/bin/python3");
    assert_eq!(found.workdir, "\\YapBot\\TwitchMarkovChain");
}

#[test]
fn looked_up_launch_plan_keeps_script_and_environment() {
    let plan = run_markov_chain_bot("D:\\data");
    assert!(!plan.program.is_empty());
    assert_eq!(plan.args[1], "MarkovChainBot.py");
    assert_eq!(plan.workdir, "D:\\data\\YapBot\\TwitchMarkovChain");
    assert_eq!(plan.env.len(), 2);
}
