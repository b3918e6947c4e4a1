use healthpi::devices::huawei::{Action, Command, Heard, Phase, Session, SessionError, AH100};
use healthpi::macaddress::MacAddress;

fn band() -> AH100 {
    AH100::new(MacAddress::from([0x01, 0x02, 0x04, 0x08, 0x10, 0x20]))
}

fn heard(bytes: &[u8]) -> Heard {
    Heard::Notification(bytes.to_vec())
}

/// An answer to an authentication with the given status.
fn answer(status: u8) -> Heard {
    heard(&[0xDB, 2, 36, status ^ 0x01])
}

fn auth_frame() -> Vec<u8> {
    vec![0xDB, 8, 36, 0x10, 0x20, 0x37, 0x4C, 0x45, 0x30, 0x00]
}

fn bind_frame() -> Vec<u8> {
    vec![0xDB, 8, 37, 0x10, 0x20, 0x37, 0x4C, 0x45, 0x30, 0x00]
}

fn records_frame() -> Vec<u8> {
    vec![0xDB, 9, 11, 0x10, 0x20, 0x37, 0x4C, 0x45, 0x30, 0x00, 0x02]
}

fn send(frame: Vec<u8>, timeout_ms: Option<u64>) -> Action {
    Action::Send { frame, timeout_ms, keep_alive: false }
}

#[test]
fn payload_is_hidden_behind_the_address() {
    let device = band();
    assert_eq!(device.encode_payload(&[]), vec![]);
    assert_eq!(device.encode_payload(&[0, 0, 0, 0, 0, 0, 0, 0]), vec![1, 2, 4, 8, 16, 32, 1, 2]);
    assert_eq!(
        device.encode_payload(&[0x11, 0x22, 0x33, 0x44, 0x55, 0x10, 0x01]),
        vec![0x10, 0x20, 0x37, 0x4C, 0x45, 0x30, 0x00]
    );
    let data: Vec<u8> = (0..=255).collect();
    assert_eq!(device.encode_payload(&device.encode_payload(&data)), data);
    assert_ne!(device.encode_payload(&data), data);
}

#[test]
fn commands_are_framed() {
    let device = band();
    assert_eq!(Command::GetRecords.code(), 11);
    assert_eq!(Command::HeartBeat.code(), 32);
    assert_eq!(Command::Auth.code(), 36);
    assert_eq!(Command::Bind.code(), 37);
    assert_eq!(device.heartbeat(), vec![0xDB, 2, 32, 0x01]);
    assert_eq!(device.auth(), auth_frame());
    assert_eq!(device.bind(), bind_frame());
    assert_eq!(device.request_measurements(), records_frame());
    assert_eq!(device.command(Command::Bind, &[]), vec![0xDB, 1, 37]);
    let long = vec![0u8; 254];
    let frame = device.command(Command::Auth, &long);
    assert_eq!(frame.len(), 257);
    assert_eq!(frame[1], 255);
}

#[test]
fn granted_authentication_leads_to_the_records() {
    let (mut session, action) = Session::start(band());
    assert_eq!(action, Action::Wait { timeout_ms: None });
    assert_eq!(
        session.step(heard(&[9, 9, 9])),
        Action::Send { frame: auth_frame(), timeout_ms: None, keep_alive: true }
    );
    assert_eq!(session.phase, Phase::AwaitAuth);
    assert_eq!(session.step(answer(1)), send(records_frame(), Some(5000)));
    assert_eq!(session.step(heard(&[1, 2, 3, 4, 5])), Action::Wait { timeout_ms: Some(5000) });
    assert_eq!(session.step(heard(&[])), Action::Wait { timeout_ms: Some(5000) });
    assert!(!session.is_over());
    assert_eq!(session.step(Heard::Silence), Action::Finish);
    assert_eq!(session.phase, Phase::Done);
    assert!(session.is_over());
    assert_eq!(session.step(answer(1)), Action::Finish);
}

#[test]
fn greeting_may_be_silence() {
    let (mut session, _) = Session::start(band());
    assert_eq!(
        session.step(Heard::Silence),
        Action::Send { frame: auth_frame(), timeout_ms: None, keep_alive: true }
    );
}

#[test]
fn refused_authentication_leads_to_bind_and_back() {
    let (mut session, _) = Session::start(band());
    session.step(heard(&[0]));
    assert_eq!(session.step(answer(0)), send(bind_frame(), Some(60_000)));
    assert_eq!(session.phase, Phase::Binding { attempt: 1, bound: false });
    assert_eq!(session.step(heard(&[0xDB, 1, 0x26])), Action::Wait { timeout_ms: Some(60_000) });
    assert_eq!(session.phase, Phase::Binding { attempt: 1, bound: false });
    assert_eq!(session.step(heard(&[0xDB, 1, 0x27])), Action::Wait { timeout_ms: Some(60_000) });
    assert_eq!(session.phase, Phase::Binding { attempt: 1, bound: true });
    // every attempt is made, also after a confirmation
    assert_eq!(session.step(Heard::Silence), send(bind_frame(), Some(60_000)));
    assert_eq!(session.step(Heard::Silence), send(bind_frame(), Some(60_000)));
    assert_eq!(session.phase, Phase::Binding { attempt: 3, bound: true });
    assert_eq!(session.step(Heard::Silence), send(auth_frame(), None));
    assert_eq!(session.phase, Phase::ReAuth { attempt: 1, granted: false });
    // every authentication is made, and one grant is enough
    assert_eq!(session.step(answer(0)), send(auth_frame(), None));
    assert_eq!(session.step(answer(1)), send(auth_frame(), None));
    assert_eq!(session.phase, Phase::ReAuth { attempt: 3, granted: true });
    assert_eq!(session.step(answer(0)), send(records_frame(), Some(5000)));
    assert_eq!(session.phase, Phase::Draining);
    assert_eq!(session.step(Heard::Silence), Action::Finish);
}

#[test]
fn three_silent_binds_fail_the_session() {
    let (mut session, _) = Session::start(band());
    session.step(heard(&[0]));
    session.step(answer(7));
    session.step(heard(&[0xDB, 1, 0x28]));
    session.step(Heard::Silence);
    session.step(Heard::Silence);
    assert_eq!(session.step(Heard::Silence), Action::Fail(SessionError::FailedToBind));
    assert_eq!(session.phase, Phase::Failed(SessionError::FailedToBind));
    assert!(session.is_over());
    assert_eq!(session.step(answer(1)), Action::Fail(SessionError::FailedToBind));
}

#[test]
fn three_refused_authentications_fail_the_session() {
    let (mut session, _) = Session::start(band());
    session.step(heard(&[0]));
    session.step(answer(0));
    session.step(heard(&[0xDB, 1, 0x27]));
    session.step(Heard::Silence);
    session.step(Heard::Silence);
    session.step(Heard::Silence);
    session.step(answer(0));
    session.step(answer(2));
    assert_eq!(session.step(answer(0)), Action::Fail(SessionError::FailedToAuthenticate));
}

#[test]
fn missing_and_short_answers_fail_the_session() {
    let (mut session, _) = Session::start(band());
    session.step(heard(&[0]));
    assert_eq!(session.step(Heard::Silence), Action::Fail(SessionError::MissingResponse));

    let (mut session, _) = Session::start(band());
    session.step(heard(&[0]));
    assert_eq!(session.step(heard(&[0xDB, 1, 36])), Action::Fail(SessionError::MalformedResponse));

    let (mut session, _) = Session::start(band());
    session.step(heard(&[0]));
    session.step(answer(0));
    assert_eq!(session.step(heard(&[0xDB, 1])), Action::Fail(SessionError::MalformedResponse));

    let (mut session, _) = Session::start(band());
    session.step(heard(&[0]));
    session.step(answer(0));
    session.step(heard(&[0xDB, 1, 0x27]));
    session.step(Heard::Silence);
    session.step(Heard::Silence);
    session.step(Heard::Silence);
    assert_eq!(session.step(Heard::Silence), Action::Fail(SessionError::MissingResponse));
}

#[test]
fn band_characteristics() {
    assert_eq!(AH100::send_characteristic().service, 0x0000faa0_0000_1000_8000_00805f9b34fb);
    assert_eq!(
        AH100::send_characteristic().characteristic,
        0x0000faa1_0000_1000_8000_00805f9b34fb
    );
    assert_eq!(
        AH100::recv_characteristic().characteristic,
        0x0000faa2_0000_1000_8000_00805f9b34fb
    );
}
