use dirstack::signals::{
    register_shutdown, registration_result, signal_to_register, SHUTDOWN_SIGNALS, SIGINT, SIGQUIT,
    SIGTERM,
};
use std::sync::atomic::{AtomicBool, Ordering};
use std::sync::Arc;

#[test]
fn signal_numbers_are_the_platform_s() {
    assert_eq!(SIGINT, signal_hook::consts::SIGINT);
    assert_eq!(SIGQUIT, signal_hook::consts::SIGQUIT);
    assert_eq!(SIGTERM, signal_hook::consts::SIGTERM);
}

#[test]
fn shutdown_signals_are_not_forbidden() {
    for signal in [SIGINT, SIGQUIT, SIGTERM] {
        assert!(!signal_hook::consts::FORBIDDEN.contains(&signal));
    }
}

#[test]
fn terminate_sets_the_flag() {
    let flag = Arc::new(AtomicBool::new(false));
    assert_eq!(register_shutdown(&flag), Ok(()));
    assert!(!flag.load(Ordering::SeqCst));
    signal_hook::low_level::raise(SIGTERM).unwrap();
    assert!(flag.load(Ordering::SeqCst));
}

#[test]
fn interrupt_and_quit_set_the_flag() {
    let flag = Arc::new(AtomicBool::new(false));
    assert_eq!(register_shutdown(&flag), Ok(()));
    signal_hook::low_level::raise(SIGINT).unwrap();
    assert!(flag.load(Ordering::SeqCst));
    flag.store(false, Ordering::SeqCst);
    signal_hook::low_level::raise(SIGQUIT).unwrap();
    assert!(flag.load(Ordering::SeqCst));
}

#[test]
fn refused_registration_names_its_signal() {
    assert_eq!(registration_result(SIGINT, true), Ok(()));
    assert_eq!(registration_result(SIGINT, false), Err(2));
    assert_eq!(registration_result(SIGTERM, false), Err(15));
    assert_eq!(registration_result(SIGQUIT, false), Err(3));
    assert_eq!(registration_result(SIGQUIT, true), Ok(()));
}

#[test]
fn signals_are_registered_in_order() {
    assert_eq!(signal_to_register(0), Some(SIGINT));
    assert_eq!(signal_to_register(1), Some(SIGTERM));
    assert_eq!(signal_to_register(2), Some(SIGQUIT));
    assert_eq!(signal_to_register(3), None);
    assert_eq!(signal_to_register(usize::MAX), None);
    assert_eq!(SHUTDOWN_SIGNALS, 3);
}
