use shengsuanyun::bind::{
    bind_address, cancel_request, BindFailure, BindNext, BindState, CANCEL_TIMEOUT_SECONDS,
};
use shengsuanyun::error::{ErrorKind, LoginError};

#[test]
fn addresses_and_cancel_request() {
    assert_eq!(bind_address(1455), "127.0.0.1:1455");
    assert_eq!(
        String::from_utf8(cancel_request(1455)).unwrap(),
        "GET /cancel HTTP/1.1\r\nHost: 127.0.0.1:1455\r\nConnection: close\r\n\r\n"
    );
    assert_eq!(CANCEL_TIMEOUT_SECONDS, 2);
}

#[test]
fn binding_asks_once_and_gives_up_after_ten_tries() {
    let mut state = BindState::new();
    let mut waited: u64 = 0;
    for attempt in 1..=10 {
        let decision = state.after_failure(BindFailure::AddrInUse, 1455);
        assert_eq!(decision.send_cancel, attempt == 1);
        assert_eq!(decision.delay_millis, 200);
        waited += decision.delay_millis;
        match decision.next {
            BindNext::Retry(next) => {
                assert!(attempt < 10);
                state = next;
            }
            BindNext::Fail(error) => {
                assert_eq!(attempt, 10);
                assert_eq!(waited, 2000);
                assert_eq!(
                    error,
                    LoginError {
                        kind: ErrorKind::AddrInUse,
                        message: "Port 127.0.0.1:1455 is already in use".to_string(),
                    }
                );
                return;
            }
        }
    }
    panic!("binding did not give up");
}

#[test]
fn other_failures_are_final() {
    let first = BindState::new().after_failure(BindFailure::AddrInUse, 80);
    let state = match first.next {
        BindNext::Retry(state) => state,
        BindNext::Fail(error) => panic!("gave up: {:?}", error),
    };
    let decision = state.after_failure(BindFailure::Other("denied".to_string()), 80);
    assert!(!decision.send_cancel);
    assert_eq!(decision.delay_millis, 0);
    match decision.next {
        BindNext::Fail(error) => assert_eq!(error, LoginError::other("denied")),
        BindNext::Retry(_) => panic!("nothing to retry"),
    }
}
