use std::sync::atomic::{AtomicBool, Ordering};
use yap_supervisor::ipc::{
    handle_ipc_payload, is_restart_message, restart_payload, restart_requested, take_restart_request,
    RESTART_COMMAND,
};

#[test]
fn exact_command_requests_restart() {
    assert!(restart_requested(b"RESTART_BOT"));
    assert!(restart_requested(b"  RESTART_BOT\r\n"));
}

#[test]
fn other_payloads_do_not_request_restart() {
    assert!(!restart_requested(b"restart_bot"));
    assert!(!restart_requested(b"RESTART"));
    assert!(!restart_requested(b""));
    assert!(!restart_requested(b"RESTART_BOT!"));
    assert!(!restart_requested(b"RESTART_\xffBOT"));
    assert!(!restart_requested(b"RESTART BOT"));
}

#[test]
fn decoded_text_check() {
    assert!(is_restart_message("RESTART_BOT"));
    assert!(is_restart_message("\u{3000}RESTART_BOT\t"));
    assert!(!is_restart_message("RESTART_BOTS"));
}

#[test]
fn flag_is_raised_and_taken() {
    let flag = AtomicBool::new(false);
    assert!(!handle_ipc_payload(&flag, b"RESTART"));
    assert!(!flag.load(Ordering::SeqCst));
    assert!(handle_ipc_payload(&flag, b"RESTART_BOT"));
    assert!(flag.load(Ordering::SeqCst));
    assert!(take_restart_request(&flag));
    assert!(!flag.load(Ordering::SeqCst));
    assert!(!take_restart_request(&flag));
}

#[test]
fn sender_payload_is_the_command() {
    assert_eq!(restart_payload(), RESTART_COMMAND.as_bytes().to_vec());
    assert!(restart_requested(&restart_payload()));
}
