use yeerugina::connect::{AfterFailure, ConnectError, ConnectionSettings};

fn settings(conn_timeout: u64, conn_tries: u8) -> ConnectionSettings {
    ConnectionSettings {
        read_timeout: Some(3000),
        write_timeout: None,
        conn_timeout,
        conn_tries,
        conn_wait: 5000,
    }
}

/// Runs a connect whose every dial fails; returns the dials made and the outcome.
fn run_failing(s: &ConnectionSettings) -> (u32, ConnectError<&'static str>) {
    let mut dials = 0u32;
    let mut attempts = match s.start_connect::<&'static str>() {
        Ok(a) => a,
        Err(e) => return (dials, e),
    };
    loop {
        dials += 1;
        match attempts.record_failure("refused") {
            AfterFailure::Retry { wait_ms, attempts: next } => {
                assert_eq!(wait_ms, 5000);
                assert_eq!(u32::from(next.made()), dials);
                attempts = next;
            },
            AfterFailure::GiveUp(e) => return (dials, e),
        }
    }
}

#[test]
fn zero_timeout_fails_without_dialling() {
    let (dials, e) = run_failing(&settings(0, 3));
    assert_eq!(dials, 0);
    assert_eq!(e, ConnectError::ZeroTimeout);
}

#[test]
fn three_tries_always_failing() {
    let (dials, e) = run_failing(&settings(5000, 3));
    assert_eq!(dials, 3);
    assert_eq!(e, ConnectError::Exhausted { attempts: 3, last: "refused" });
}

#[test]
fn zero_or_one_try_dials_once() {
    for tries in [0u8, 1] {
        let (dials, e) = run_failing(&settings(1, tries));
        assert_eq!(dials, 1);
        assert_eq!(e, ConnectError::Exhausted { attempts: 1, last: "refused" });
    }
}

#[test]
fn most_tries() {
    let (dials, e) = run_failing(&settings(1, 255));
    assert_eq!(dials, 255);
    assert_eq!(e, ConnectError::Exhausted { attempts: 255, last: "refused" });
}

#[test]
fn start_connect_begins_with_no_dial() {
    let a = settings(1, 4).start_connect::<()>().unwrap();
    assert_eq!(a.made(), 0);
}
