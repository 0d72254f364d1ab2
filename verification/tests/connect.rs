use rdp_screenshot::connect::{
    first_address, AddressNotFound, ConnectState, ConnectStep, READ_TIMEOUT_SECS,
};

const STEPS: [ConnectStep; 7] = [
    ConnectStep::LookUpAddress,
    ConnectStep::OpenStream,
    ConnectStep::SetReadTimeout,
    ConnectStep::GetLocalAddress,
    ConnectStep::BeginConnection,
    ConnectStep::UpgradeToTls,
    ConnectStep::FinalizeConnection,
];

#[test]
fn reads_are_bounded() {
    assert_eq!(READ_TIMEOUT_SECS, 3);
}

#[test]
fn steps_follow_each_other() {
    let mut state = ConnectState::start();
    for step in STEPS {
        assert_eq!(state, ConnectState::Pending(step));
        state = state.next(true);
    }
    assert_eq!(state, ConnectState::Connected);
    assert_eq!(state.next(true), ConnectState::Connected);
    assert_eq!(state.next(false), ConnectState::Connected);
}

#[test]
fn first_failure_is_final() {
    for (done, step) in STEPS.into_iter().enumerate() {
        let mut state = ConnectState::start();
        for _ in 0..done {
            state = state.next(true);
        }
        state = state.next(false);
        assert_eq!(state, ConnectState::Failed(step));
        assert_eq!(state.next(true), ConnectState::Failed(step));
    }
}

#[test]
fn credentials_come_after_tls() {
    let tls = STEPS.iter().position(|step| *step == ConnectStep::UpgradeToTls).unwrap();
    let mut state = ConnectState::start();
    for i in 0..STEPS.len() {
        if state == ConnectState::Pending(ConnectStep::FinalizeConnection) {
            assert!(i > tls);
        }
        state = state.next(true);
    }
}

#[test]
fn contexts_of_the_steps() {
    let contexts: Vec<&str> = STEPS.into_iter().map(|step| step.context()).collect();
    assert_eq!(
        contexts,
        [
            "lookup addr",
            "TCP connect",
            "set_read_timeout call failed",
            "get socket local address",
            "begin connection",
            "TLS upgrade",
            "finalize connection",
        ]
    );
}

#[test]
fn first_address_is_taken() {
    assert_eq!(first_address(&[4u8, 5, 6]), Ok(4));
    assert_eq!(first_address::<u8>(&[]), Err(AddressNotFound));
}
