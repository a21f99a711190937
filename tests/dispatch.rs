use aeon::dispatch::{portal_notification_id, portal_payload, Backend, Dispatch, DispatchStep};

fn run(portal_capable: bool, portal: Result<(), String>, native: Result<(), String>) -> (Vec<Backend>, Result<(), String>) {
    let mut d = Dispatch::new(portal_capable);
    let mut tried = Vec::new();
    loop {
        match d.next_step() {
            DispatchStep::Deliver(b) => {
                tried.push(b);
                let r = match b {
                    Backend::Portal => portal.clone(),
                    Backend::Native => native.clone(),
                };
                d.record(r);
            }
            DispatchStep::Delivered(_) | DispatchStep::Exhausted => break,
        }
    }
    (tried, d.finish())
}

#[test]
fn portal_success_skips_native() {
    let (tried, r) = run(true, Ok(()), Err("native down".to_string()));
    assert_eq!(tried, vec![Backend::Portal]);
    assert_eq!(r, Ok(()));
}

#[test]
fn portal_failure_falls_back_once() {
    let (tried, r) = run(true, Err("session bus error".to_string()), Ok(()));
    assert_eq!(tried, vec![Backend::Portal, Backend::Native]);
    assert_eq!(r, Ok(()));
}

#[test]
fn both_fail_reports_last_error() {
    let (tried, r) = run(true, Err("portal proxy error".to_string()), Err("no daemon".to_string()));
    assert_eq!(tried, vec![Backend::Portal, Backend::Native]);
    assert_eq!(r, Err("no daemon".to_string()));
}

#[test]
fn native_only_platform() {
    let (tried, r) = run(false, Ok(()), Err("failed".to_string()));
    assert_eq!(tried, vec![Backend::Native]);
    assert_eq!(r, Err("failed".to_string()));
    let (tried, r) = run(false, Err("unused".to_string()), Ok(()));
    assert_eq!(tried, vec![Backend::Native]);
    assert_eq!(r, Ok(()));
}

#[test]
fn delivered_step_names_backend() {
    let mut d = Dispatch::new(true);
    d.record(Err("x".to_string()));
    d.record(Ok(()));
    assert_eq!(d.next_step(), DispatchStep::Delivered(Backend::Native));
}

#[test]
fn notification_id_has_prefix_and_millis() {
    assert_eq!(portal_notification_id(1700000000123), "aeon-1700000000123");
    assert_eq!(portal_notification_id(0), "aeon-0");
}

#[test]
fn payload_entries() {
    let p = portal_payload("aeon", "Break", "Time to rest");
    let expected = vec![
        ("title".to_string(), "Break".to_string()),
        ("body".to_string(), "Time to rest".to_string()),
        ("priority".to_string(), "normal".to_string()),
        ("icon".to_string(), "aeon".to_string()),
    ];
    assert_eq!(p, expected);
}

#[test]
fn notification_id_largest_millis() {
    assert_eq!(portal_notification_id(u64::MAX), "aeon-18446744073709551615");
    assert_eq!(portal_notification_id(10), "aeon-10");
}
