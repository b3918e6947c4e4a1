//! The Huawei AH100 activity band.
//!
//! The band frames its commands and hides their payload behind the
//! address of the device. It answers only to a peer that has
//! authenticated, and authenticates only a peer that it is bound to. The
//! session is a state machine: the caller performs each [`Action`] and
//! hands back what the band sent.

use vstd::prelude::*;

use crate::api::CharacteristicId;
use crate::macaddress::MacAddress;

verus! {

/// The band's service.
pub const AH100_CUSTOM_SERVICE: u128 = 0x0000faa0_0000_1000_8000_00805f9b34fb;

/// The characteristic that takes the band's commands.
pub const AH100_CUSTOM_SEND: u128 = 0x0000faa1_0000_1000_8000_00805f9b34fb;

/// The characteristic on which the band answers.
pub const AH100_CUSTOM_RECV: u128 = 0x0000faa2_0000_1000_8000_00805f9b34fb;

/// The byte that opens every frame.
pub const FRAME_START: u8 = 0xDB;

/// The command byte of the event that confirms a bind.
pub const BIND_CONFIRMED: u8 = 0x27;

/// How often the keep-alive is sent, in milliseconds.
pub const HEARTBEAT_INTERVAL_MS: u64 = 2000;

/// How long the band may stay silent after a bind request before the
/// attempt counts as over, in milliseconds.
pub const BIND_TIMEOUT_MS: u64 = 60_000;

/// How long the band may stay silent after the request for its records
/// before the stream counts as drained, in milliseconds.
pub const RECORDS_TIMEOUT_MS: u64 = 5000;

/// How many times a bind, and an authentication after it, is tried.
pub const ATTEMPTS: u8 = 3;

/// The commands of the band.
#[derive(Clone, Copy, Debug, PartialEq, Eq, Structural)]
pub enum Command {
    GetRecords,
    HeartBeat,
    Auth,
    Bind,
}

impl Command {
    /// The byte that stands for the command in a frame.
    pub open spec fn spec_code(self) -> u8 {
        match self {
            Command::GetRecords => 11,
            Command::HeartBeat => 32,
            Command::Auth => 36,
            Command::Bind => 37,
        }
    }

    /// The byte that stands for the command in a frame.
    pub fn code(self) -> (code: u8)
        ensures
            code == self.spec_code(),
    {
        match self {
            Command::GetRecords => 11,
            Command::HeartBeat => 32,
            Command::Auth => 36,
            Command::Bind => 37,
        }
    }
}

/// A payload with each byte combined, by exclusive or, with the byte of
/// the address at the same place, the address being repeated every 6
/// bytes.
pub open spec fn spec_encode_payload(mac_address: MacAddress, data: Seq<u8>) -> Seq<u8> {
    Seq::new(data.len(), |i: int| data[i] ^ mac_address.0[i % 6])
}

/// The frame of a command: the start byte, the length of the payload plus
/// one, the command's code, and the encoded payload.
pub open spec fn spec_command(mac_address: MacAddress, code: Command, payload: Seq<u8>) -> Seq<u8>
    recommends
        payload.len() < 255,
{
    seq![FRAME_START, (payload.len() + 1) as u8, code.spec_code()] + spec_encode_payload(
        mac_address,
        payload,
    )
}

/// The payload that accompanies an authentication and a bind request.
pub open spec fn spec_identity_payload() -> Seq<u8> {
    seq![0x11u8, 0x22u8, 0x33u8, 0x44u8, 0x55u8, 0x10u8, 0x01u8]
}

/// The payload that accompanies the request for the records.
pub open spec fn spec_records_payload() -> Seq<u8> {
    seq![0x11u8, 0x22u8, 0x33u8, 0x44u8, 0x55u8, 0x10u8, 0x01u8, 0x00u8]
}

/// The status that an answer to an authentication carries: the first
/// byte of its payload, which starts at byte 3, decoded. A status of 1
/// grants the authentication.
pub open spec fn spec_status(mac_address: MacAddress, event: Seq<u8>) -> u8
    recommends
        event.len() >= 4,
{
    spec_encode_payload(mac_address, event.subrange(3, event.len() as int))[0]
}

/// Encoding is its own inverse: a payload encoded twice is the payload.
pub proof fn lemma_encode_payload_twice(mac_address: MacAddress, data: Seq<u8>)
    ensures
        spec_encode_payload(mac_address, spec_encode_payload(mac_address, data)) == data,
        spec_encode_payload(mac_address, data).len() == data.len(),
{
    let once = spec_encode_payload(mac_address, data);
    let twice = spec_encode_payload(mac_address, once);
    assert forall|i: int| 0 <= i < data.len() implies twice[i] == data[i] by {
        let d = data[i];
        let k = mac_address.0[i % 6];
        assert((d ^ k) ^ k == d) by (bit_vector);
    }
    assert(twice =~= data);
}

/// The decoder for one AH100 band.
#[derive(Clone, Copy, Debug, PartialEq, Eq)]
pub struct AH100 {
    pub mac_address: MacAddress,
}

impl AH100 {
    /// A decoder for the band with the given address.
    pub fn new(mac_address: MacAddress) -> (device: Self)
        ensures
            device.mac_address == mac_address,
    {
        Self { mac_address }
    }

    /// The characteristic that takes commands.
    pub fn send_characteristic() -> (id: CharacteristicId)
        ensures
            id == (CharacteristicId {
                service: AH100_CUSTOM_SERVICE,
                characteristic: AH100_CUSTOM_SEND,
            }),
    {
        CharacteristicId { service: AH100_CUSTOM_SERVICE, characteristic: AH100_CUSTOM_SEND }
    }

    /// The characteristic on which the band answers.
    pub fn recv_characteristic() -> (id: CharacteristicId)
        ensures
            id == (CharacteristicId {
                service: AH100_CUSTOM_SERVICE,
                characteristic: AH100_CUSTOM_RECV,
            }),
    {
        CharacteristicId { service: AH100_CUSTOM_SERVICE, characteristic: AH100_CUSTOM_RECV }
    }

    /// Encodes a payload for the band, or decodes one that the band sent:
    /// the two are the same operation.
    pub fn encode_payload(&self, data: &[u8]) -> (encoded: Vec<u8>)
        ensures
            encoded@ == spec_encode_payload(self.mac_address, data@),
    {
        let mut encoded: Vec<u8> = Vec::new();
        let mut i: usize = 0;
        while i < data.len()
            invariant
                i <= data.len(),
                encoded@ == spec_encode_payload(self.mac_address, data@.take(i as int)),
            decreases data.len() - i,
        {
            encoded.push(data[i] ^ self.mac_address.0[i % 6]);
            i = i + 1;
            assert(encoded@ =~= spec_encode_payload(self.mac_address, data@.take(i as int)));
        }
        assert(data@.take(data.len() as int) == data@);
        encoded
    }

    /// Frames a command with its payload.
    pub fn command(&self, code: Command, payload: &[u8]) -> (frame: Vec<u8>)
        requires
            payload@.len() < 255,
        ensures
            frame@ == spec_command(self.mac_address, code, payload@),
    {
        let mut frame: Vec<u8> = vec![FRAME_START, (payload.len() + 1) as u8, code.code()];
        let mut encoded = self.encode_payload(payload);
        frame.append(&mut encoded);
        assert(frame@ =~= spec_command(self.mac_address, code, payload@));
        frame
    }

    /// The keep-alive frame, to be written every
    /// [`HEARTBEAT_INTERVAL_MS`] while the session lasts.
    pub fn heartbeat(&self) -> (frame: Vec<u8>)
        ensures
            frame@ == spec_command(self.mac_address, Command::HeartBeat, seq![0u8]),
    {
        let payload: [u8; 1] = [0];
        assert(payload@ =~= seq![0u8]);
        self.command(Command::HeartBeat, payload.as_slice())
    }

    /// The frame that asks the band to authenticate this peer.
    pub fn auth(&self) -> (frame: Vec<u8>)
        ensures
            frame@ == spec_command(self.mac_address, Command::Auth, spec_identity_payload()),
    {
        let payload: [u8; 7] = [0x11, 0x22, 0x33, 0x44, 0x55, 0x10, 0x01];
        assert(payload@ =~= spec_identity_payload());
        self.command(Command::Auth, payload.as_slice())
    }

    /// The frame that asks the band to bind to this peer.
    pub fn bind(&self) -> (frame: Vec<u8>)
        ensures
            frame@ == spec_command(self.mac_address, Command::Bind, spec_identity_payload()),
    {
        let payload: [u8; 7] = [0x11, 0x22, 0x33, 0x44, 0x55, 0x10, 0x01];
        assert(payload@ =~= spec_identity_payload());
        self.command(Command::Bind, payload.as_slice())
    }

    /// The frame that asks the band for its records.
    pub fn request_measurements(&self) -> (frame: Vec<u8>)
        ensures
            frame@ == spec_command(
                self.mac_address,
                Command::GetRecords,
                spec_records_payload(),
            ),
    {
        let payload: [u8; 8] = [0x11, 0x22, 0x33, 0x44, 0x55, 0x10, 0x01, 0x00];
        assert(payload@ =~= spec_records_payload());
        self.command(Command::GetRecords, payload.as_slice())
    }
}

/// Why a session with the band failed.
#[derive(Clone, Copy, Debug, PartialEq, Eq, Structural)]
pub enum SessionError {
    /// The stream ended where the band owed an answer.
    MissingResponse,
    /// An event is too short to hold what the session reads from it.
    MalformedResponse,
    /// No bind request was confirmed in three attempts.
    FailedToBind,
    /// No authentication was granted in three attempts after a bind.
    FailedToAuthenticate,
}

/// Where a session stands.
#[derive(Clone, Copy, Debug, PartialEq, Eq, Structural)]
pub enum Phase {
    /// Subscribed; the first event, which is noise of the connection
    /// setup, is still to come.
    AwaitGreeting,
    /// The first authentication was sent; its answer is awaited.
    AwaitAuth,
    /// Bind request number `attempt` was sent; events are collected, and
    /// `bound` tells whether any of them, in this attempt or an earlier
    /// one, confirmed a bind.
    Binding { attempt: u8, bound: bool },
    /// Authentication number `attempt` after the bind was sent; its answer
    /// is awaited, and `granted` tells whether an earlier one was granted.
    ReAuth { attempt: u8, granted: bool },
    /// The records were asked for; what the band sends is discarded.
    Draining,
    /// The session ended well. It yields no record.
    Done,
    /// The session failed.
    Failed(SessionError),
}

/// What a session hears from the transport.
#[derive(Clone, Debug, PartialEq, Eq)]
pub enum Heard {
    /// The band sent a notification.
    Notification(Vec<u8>),
    /// Nothing came in the time allowed, or the stream ended.
    Silence,
}

/// The mathematical value of [`Heard`].
pub enum HeardView {
    Notification(Seq<u8>),
    Silence,
}

impl View for Heard {
    type V = HeardView;

    open spec fn view(&self) -> HeardView {
        match self {
            Heard::Notification(bytes) => HeardView::Notification(bytes@),
            Heard::Silence => HeardView::Silence,
        }
    }
}

/// What the caller is to do next.
#[derive(Clone, Debug, PartialEq, Eq)]
pub enum Action {
    /// Write `frame` to the send characteristic with acknowledgement, then
    /// hand over the next notification, waiting no longer than
    /// `timeout_ms` for it where a time is given. Where `keep_alive` is
    /// set, first start to write the keep-alive frame at its interval.
    Send { frame: Vec<u8>, timeout_ms: Option<u64>, keep_alive: bool },
    /// Hand over the next notification, waiting no longer than
    /// `timeout_ms` for it where a time is given.
    Wait { timeout_ms: Option<u64> },
    /// The session is over and yields no record.
    Finish,
    /// The session has failed.
    Fail(SessionError),
}

/// The mathematical value of an [`Action`].
pub enum ActionView {
    Send { frame: Seq<u8>, timeout_ms: Option<u64>, keep_alive: bool },
    Wait { timeout_ms: Option<u64> },
    Finish,
    Fail(SessionError),
}

impl View for Action {
    type V = ActionView;

    open spec fn view(&self) -> ActionView {
        match self {
            Action::Send { frame, timeout_ms, keep_alive } => ActionView::Send {
                frame: frame@,
                timeout_ms: *timeout_ms,
                keep_alive: *keep_alive,
            },
            Action::Wait { timeout_ms } => ActionView::Wait { timeout_ms: *timeout_ms },
            Action::Finish => ActionView::Finish,
            Action::Fail(error) => ActionView::Fail(*error),
        }
    }
}

/// The frame of an authentication request.
pub open spec fn spec_auth_frame(mac_address: MacAddress) -> Seq<u8> {
    spec_command(mac_address, Command::Auth, spec_identity_payload())
}

/// The frame of a bind request.
pub open spec fn spec_bind_frame(mac_address: MacAddress) -> Seq<u8> {
    spec_command(mac_address, Command::Bind, spec_identity_payload())
}

/// The frame of the request for the records.
pub open spec fn spec_records_frame(mac_address: MacAddress) -> Seq<u8> {
    spec_command(mac_address, Command::GetRecords, spec_records_payload())
}

/// The step that sends the request for the records.
pub open spec fn spec_ask_for_records(mac_address: MacAddress) -> (Phase, ActionView) {
    (
        Phase::Draining,
        ActionView::Send {
            frame: spec_records_frame(mac_address),
            timeout_ms: Some(RECORDS_TIMEOUT_MS),
            keep_alive: false,
        },
    )
}

/// The step that sends bind request number `attempt`.
pub open spec fn spec_ask_to_bind(mac_address: MacAddress, attempt: u8, bound: bool) -> (
    Phase,
    ActionView,
) {
    (
        Phase::Binding { attempt, bound },
        ActionView::Send {
            frame: spec_bind_frame(mac_address),
            timeout_ms: Some(BIND_TIMEOUT_MS),
            keep_alive: false,
        },
    )
}

/// The step that sends authentication number `attempt` after a bind.
pub open spec fn spec_ask_to_authenticate(mac_address: MacAddress, attempt: u8, granted: bool) -> (
    Phase,
    ActionView,
) {
    (
        Phase::ReAuth { attempt, granted },
        ActionView::Send {
            frame: spec_auth_frame(mac_address),
            timeout_ms: None,
            keep_alive: false,
        },
    )
}

/// The step that ends the session with an error.
pub open spec fn spec_fail(error: SessionError) -> (Phase, ActionView) {
    (Phase::Failed(error), ActionView::Fail(error))
}

/// The next phase of a session and what the caller is to do, given the
/// phase it is in and what was heard.
pub open spec fn spec_step(mac_address: MacAddress, phase: Phase, heard: HeardView) -> (
    Phase,
    ActionView,
) {
    match phase {
        Phase::AwaitGreeting => (
            Phase::AwaitAuth,
            ActionView::Send {
                frame: spec_auth_frame(mac_address),
                timeout_ms: None,
                keep_alive: true,
            },
        ),
        Phase::AwaitAuth => match heard {
            HeardView::Silence => spec_fail(SessionError::MissingResponse),
            HeardView::Notification(bytes) => if bytes.len() < 4 {
                spec_fail(SessionError::MalformedResponse)
            } else if spec_status(mac_address, bytes) == 1 {
                spec_ask_for_records(mac_address)
            } else {
                spec_ask_to_bind(mac_address, 1, false)
            },
        },
        Phase::Binding { attempt, bound } => match heard {
            HeardView::Notification(bytes) => if bytes.len() < 3 {
                spec_fail(SessionError::MalformedResponse)
            } else {
                (
                    Phase::Binding { attempt, bound: bound || bytes[2] == BIND_CONFIRMED },
                    ActionView::Wait { timeout_ms: Some(BIND_TIMEOUT_MS) },
                )
            },
            HeardView::Silence => if attempt < ATTEMPTS {
                spec_ask_to_bind(mac_address, (attempt + 1) as u8, bound)
            } else if bound {
                spec_ask_to_authenticate(mac_address, 1, false)
            } else {
                spec_fail(SessionError::FailedToBind)
            },
        },
        Phase::ReAuth { attempt, granted } => match heard {
            HeardView::Silence => spec_fail(SessionError::MissingResponse),
            HeardView::Notification(bytes) => if bytes.len() < 4 {
                spec_fail(SessionError::MalformedResponse)
            } else {
                let granted = granted || spec_status(mac_address, bytes) == 1;
                if attempt < ATTEMPTS {
                    spec_ask_to_authenticate(mac_address, (attempt + 1) as u8, granted)
                } else if granted {
                    spec_ask_for_records(mac_address)
                } else {
                    spec_fail(SessionError::FailedToAuthenticate)
                }
            },
        },
        Phase::Draining => match heard {
            HeardView::Notification(_) => (
                Phase::Draining,
                ActionView::Wait { timeout_ms: Some(RECORDS_TIMEOUT_MS) },
            ),
            HeardView::Silence => (Phase::Done, ActionView::Finish),
        },
        Phase::Done => (Phase::Done, ActionView::Finish),
        Phase::Failed(error) => spec_fail(error),
    }
}

/// A session with one band.
#[derive(Clone, Copy, Debug, PartialEq, Eq)]
pub struct Session {
    pub device: AH100,
    pub phase: Phase,
}

impl Session {
    /// Opens a session. The caller subscribes to the receive
    /// characteristic and hands over its first notification, however long
    /// it takes.
    pub fn start(device: AH100) -> (opened: (Session, Action))
        ensures
            opened.0 == (Session { device, phase: Phase::AwaitGreeting }),
            opened.1@ == (ActionView::Wait { timeout_ms: None }),
    {
        (Session { device, phase: Phase::AwaitGreeting }, Action::Wait { timeout_ms: None })
    }

    /// Whether the session is over, well or not.
    pub fn is_over(&self) -> (over: bool)
        ensures
            over == (self.phase is Done || self.phase is Failed),
    {
        match self.phase {
            Phase::Done => true,
            Phase::Failed(_) => true,
            _ => false,
        }
    }

    /// The status of an answer to an authentication.
    fn status(&self, bytes: &Vec<u8>) -> (status: u8)
        requires
            bytes.len() >= 4,
        ensures
            status == spec_status(self.device.mac_address, bytes@),
    {
        bytes[3] ^ self.device.mac_address.0[0]
    }

    /// Takes what was heard and tells what to do next.
    pub fn step(&mut self, heard: Heard) -> (action: Action)
        ensures
            final(self).device == old(self).device,
            (final(self).phase, action@) == spec_step(
                old(self).device.mac_address,
                old(self).phase,
                heard@,
            ),
    {
        let device = self.device;
        match self.phase {
            Phase::AwaitGreeting => {
                self.phase = Phase::AwaitAuth;
                Action::Send { frame: device.auth(), timeout_ms: None, keep_alive: true }
            },
            Phase::AwaitAuth => match heard {
                Heard::Silence => self.fail(SessionError::MissingResponse),
                Heard::Notification(bytes) => {
                    if bytes.len() < 4 {
                        self.fail(SessionError::MalformedResponse)
                    } else if self.status(&bytes) == 1 {
                        self.ask_for_records()
                    } else {
                        self.ask_to_bind(1, false)
                    }
                },
            },
            Phase::Binding { attempt, bound } => match heard {
                Heard::Notification(bytes) => {
                    if bytes.len() < 3 {
                        self.fail(SessionError::MalformedResponse)
                    } else {
                        self.phase = Phase::Binding {
                            attempt,
                            bound: bound || bytes[2] == BIND_CONFIRMED,
                        };
                        Action::Wait { timeout_ms: Some(BIND_TIMEOUT_MS) }
                    }
                },
                Heard::Silence => {
                    if attempt < ATTEMPTS {
                        self.ask_to_bind(attempt + 1, bound)
                    } else if bound {
                        self.ask_to_authenticate(1, false)
                    } else {
                        self.fail(SessionError::FailedToBind)
                    }
                },
            },
            Phase::ReAuth { attempt, granted } => match heard {
                Heard::Silence => self.fail(SessionError::MissingResponse),
                Heard::Notification(bytes) => {
                    if bytes.len() < 4 {
                        self.fail(SessionError::MalformedResponse)
                    } else {
                        let granted = granted || self.status(&bytes) == 1;
                        if attempt < ATTEMPTS {
                            self.ask_to_authenticate(attempt + 1, granted)
                        } else if granted {
                            self.ask_for_records()
                        } else {
                            self.fail(SessionError::FailedToAuthenticate)
                        }
                    }
                },
            },
            Phase::Draining => match heard {
                Heard::Notification(_) => Action::Wait { timeout_ms: Some(RECORDS_TIMEOUT_MS) },
                Heard::Silence => {
                    self.phase = Phase::Done;
                    Action::Finish
                },
            },
            Phase::Done => Action::Finish,
            Phase::Failed(error) => Action::Fail(error),
        }
    }

    fn fail(&mut self, error: SessionError) -> (action: Action)
        ensures
            final(self).device == old(self).device,
            (final(self).phase, action@) == spec_fail(error),
    {
        self.phase = Phase::Failed(error);
        Action::Fail(error)
    }

    fn ask_for_records(&mut self) -> (action: Action)
        ensures
            final(self).device == old(self).device,
            (final(self).phase, action@) == spec_ask_for_records(old(self).device.mac_address),
    {
        self.phase = Phase::Draining;
        Action::Send {
            frame: self.device.request_measurements(),
            timeout_ms: Some(RECORDS_TIMEOUT_MS),
            keep_alive: false,
        }
    }

    fn ask_to_bind(&mut self, attempt: u8, bound: bool) -> (action: Action)
        ensures
            final(self).device == old(self).device,
            (final(self).phase, action@) == spec_ask_to_bind(
                old(self).device.mac_address,
                attempt,
                bound,
            ),
    {
        self.phase = Phase::Binding { attempt, bound };
        Action::Send {
            frame: self.device.bind(),
            timeout_ms: Some(BIND_TIMEOUT_MS),
            keep_alive: false,
        }
    }

    fn ask_to_authenticate(&mut self, attempt: u8, granted: bool) -> (action: Action)
        ensures
            final(self).device == old(self).device,
            (final(self).phase, action@) == spec_ask_to_authenticate(
                old(self).device.mac_address,
                attempt,
                granted,
            ),
    {
        self.phase = Phase::ReAuth { attempt, granted };
        Action::Send { frame: self.device.auth(), timeout_ms: None, keep_alive: false }
    }
}

/// Whether a phase counts its attempts within bounds: every phase that a
/// session reaches does.
pub open spec fn spec_in_bounds(phase: Phase) -> bool {
    match phase {
        Phase::Binding { attempt, .. } => 1 <= attempt <= ATTEMPTS,
        Phase::ReAuth { attempt, .. } => 1 <= attempt <= ATTEMPTS,
        _ => true,
    }
}

/// A session never tries a bind or an authentication more than three
/// times: a step keeps the count of attempts within bounds.
pub proof fn lemma_step_keeps_bounds(mac_address: MacAddress, phase: Phase, heard: HeardView)
    requires
        spec_in_bounds(phase),
    ensures
        spec_in_bounds(spec_step(mac_address, phase, heard).0),
{
}

/// The records are asked for only after the band has granted an
/// authentication: at once, or in one of the attempts that follow a bind.
pub proof fn lemma_records_need_authentication(
    mac_address: MacAddress,
    phase: Phase,
    heard: HeardView,
)
    requires
        !(phase is Draining),
        spec_step(mac_address, phase, heard).0 is Draining,
    ensures
        heard is Notification,
        heard->Notification_0.len() >= 4,
        match phase {
            Phase::AwaitAuth => spec_status(mac_address, heard->Notification_0) == 1,
            Phase::ReAuth { attempt, granted } => attempt >= ATTEMPTS && (granted || spec_status(
                mac_address,
                heard->Notification_0,
            ) == 1),
            _ => false,
        },
        spec_step(mac_address, phase, heard).1 == (ActionView::Send {
            frame: spec_records_frame(mac_address),
            timeout_ms: Some(RECORDS_TIMEOUT_MS),
            keep_alive: false,
        }),
{
}

/// A session fails to bind exactly when the last attempt has ended in
/// silence and no event of any attempt has confirmed a bind; it fails to
/// authenticate exactly when the answer to the last attempt is not a
/// grant and none before it was.
pub proof fn lemma_failures(mac_address: MacAddress, phase: Phase, heard: HeardView)
    requires
        !(phase is Failed),
    ensures
        spec_step(mac_address, phase, heard).0 == Phase::Failed(SessionError::FailedToBind) <==> (
        phase matches Phase::Binding { attempt, bound } && attempt >= ATTEMPTS && !bound
            && heard is Silence),
        spec_step(mac_address, phase, heard).0 == Phase::Failed(
            SessionError::FailedToAuthenticate,
        ) <==> (phase matches Phase::ReAuth { attempt, granted } && attempt >= ATTEMPTS && !granted
            && heard is Notification && heard->Notification_0.len() >= 4 && spec_status(
            mac_address,
            heard->Notification_0,
        ) != 1),
{
}

/// A session that is over stays over: it asks for nothing more.
pub proof fn lemma_over_stays_over(mac_address: MacAddress, phase: Phase, heard: HeardView)
    requires
        phase is Done || phase is Failed,
    ensures
        spec_step(mac_address, phase, heard).0 == phase,
        !(spec_step(mac_address, phase, heard).1 is Send),
        !(spec_step(mac_address, phase, heard).1 is Wait),
{
}

} // verus!
