//! The session with one device: login, the correlation of replies with
//! requests, the four read commands, and logoff.
//!
//! A session performs no I/O. Each exchange is three steps for the caller:
//! take the datagram to send from [`Inverter::login`], [`Inverter::poll`] or
//! [`Inverter::logoff`]; hand every datagram that arrives to
//! [`Inverter::on_login_datagram`] or [`Inverter::on_poll_datagram`] until
//! one of them is done; and report a deadline that passed, or a socket that
//! failed, with [`Inverter::on_deadline`] or [`Inverter::on_io_failure`].
//!
//! A reply starts with a status byte and three reserved bytes. A login reply
//! then holds the session identifier; a read reply holds measurement records.

use vstd::prelude::*;
use vstd::slice::slice_subrange;
use crate::bytes::{le32, le32_at, push_u32_le, read_u32_le};
use crate::discovery::InverterAddress;
use crate::frame::{
    lemma_decode_encode, lemma_head_layout, spec_decode, spec_encode, DeviceAddress, Endpoint,
    Field, Frame, FrameView, MAX_PAYLOAD,
};
use crate::measurement::{decode_records, spec_decode_records};
use crate::readings::{poll_data, spec_poll_data, Command, PollData};
use crate::settings::LogLevel;

verus! {

/// Opcode of the login request.
pub const OPCODE_LOGIN: u32 = 0xFFFD_040C;

/// Opcode of the request that ends a session.
pub const OPCODE_LOGOFF: u32 = 0xFFFD_010E;

/// The counter of the first request of a session. Its high bit marks a request.
pub const FIRST_COUNTER: u16 = 0x8000;

/// The control byte pair of a request.
pub const CONTROL_REQUEST: u16 = 0x00A0;

/// The susy-id under which this client speaks.
pub const LOCAL_SUSY_ID: u16 = 0x0078;

/// Length of the password field of a login request.
pub const PASSWORD_LEN: usize = 12;

/// Offset of the password field in a login datagram.
pub const PASSWORD_OFFSET: usize = 58;

/// Status of a reply that grants what was asked.
pub const STATUS_OK: u8 = 0x00;

/// Status of a login reply that refuses the password.
pub const STATUS_WRONG_PASSWORD: u8 = 0x01;

/// Status of a login reply from a device that is locked.
pub const STATUS_LOCKED: u8 = 0x02;

/// Status of a reply from a device that does not implement what was asked.
pub const STATUS_UNSUPPORTED: u8 = 0x07;

/// Offset of the data in the payload of a reply.
pub const REPLY_DATA_OFFSET: usize = 4;

/// Who logs in.
#[derive(Clone, Copy, Debug, PartialEq, Eq, Structural)]
pub enum UserClass {
    User,
    Installer,
}

impl UserClass {
    /// The class selector of the login request.
    pub open spec fn spec_code(self) -> u8 {
        match self {
            UserClass::User => 0x07,
            UserClass::Installer => 0x0A,
        }
    }

    /// The byte with which the password is obfuscated.
    pub open spec fn spec_key(self) -> u8 {
        match self {
            UserClass::User => 0x88,
            UserClass::Installer => 0xBB,
        }
    }

    /// The class selector of the login request.
    pub fn code(&self) -> (code: u8)
        ensures
            code == self.spec_code(),
    {
        match self {
            UserClass::User => 0x07,
            UserClass::Installer => 0x0A,
        }
    }

    /// The byte with which the password is obfuscated.
    pub fn key(&self) -> (key: u8)
        ensures
            key == self.spec_key(),
    {
        match self {
            UserClass::User => 0x88,
            UserClass::Installer => 0xBB,
        }
    }
}

/// Why an exchange with a device did not yield what was asked.
#[derive(Clone, Copy, Debug, PartialEq, Eq, Structural)]
pub enum SessionError {
    /// The socket failed. The session is dropped.
    Io,
    /// No matching reply came before the deadline. The session stays.
    Timeout,
    /// A datagram failed validation in the named field. It is passed over.
    Malformed(Field),
    /// The device does not implement what was asked.
    Unsupported,
    /// The device refused the password.
    WrongPassword,
    /// The device is locked against logins.
    Locked,
}

impl SessionError {
    /// Whether the device is given up until the next discovery: after a
    /// socket failure and after a refused login. After any other error the
    /// session goes on with the next command.
    pub open spec fn spec_abandons_device(self) -> bool {
        self == SessionError::Io || self == SessionError::WrongPassword || self
            == SessionError::Locked
    }

    /// The level at which the error is logged. A command that the device
    /// does not support, and a datagram that is passed over, stay below `Info`.
    pub open spec fn spec_log_level(self) -> LogLevel {
        match self {
            SessionError::Io => LogLevel::Error,
            SessionError::WrongPassword => LogLevel::Error,
            SessionError::Locked => LogLevel::Error,
            SessionError::Timeout => LogLevel::Warn,
            SessionError::Unsupported => LogLevel::Debug,
            SessionError::Malformed(_) => LogLevel::Debug,
        }
    }

    /// Tells whether the device is given up until the next discovery.
    pub fn abandons_device(&self) -> (abandons: bool)
        ensures
            abandons == self.spec_abandons_device(),
    {
        match self {
            SessionError::Io => true,
            SessionError::WrongPassword => true,
            SessionError::Locked => true,
            _ => false,
        }
    }

    /// The level at which the error is logged.
    pub fn log_level(&self) -> (level: LogLevel)
        ensures
            level == self.spec_log_level(),
            *self == SessionError::Unsupported ==> level.spec_rank() > LogLevel::Info.spec_rank(),
    {
        match self {
            SessionError::Io => LogLevel::Error,
            SessionError::WrongPassword => LogLevel::Error,
            SessionError::Locked => LogLevel::Error,
            SessionError::Timeout => LogLevel::Warn,
            SessionError::Unsupported => LogLevel::Debug,
            SessionError::Malformed(_) => LogLevel::Debug,
        }
    }
}

/// What a datagram means for the exchange that is under way.
#[derive(Debug, PartialEq, Eq)]
pub enum Progress<T> {
    /// The datagram is not the awaited reply: keep reading until the deadline.
    KeepReading,
    /// The exchange is over, with this result.
    Done(Result<T, SessionError>),
}

/// Where a device stands in its lifecycle.
#[derive(Clone, Copy, Debug, PartialEq, Eq, Structural)]
pub enum SessionState {
    /// Found by discovery; no session.
    Discovered,
    /// Logged in; the session identifier is valid.
    Authenticated,
}

/// One device and the session with it.
#[derive(Clone, Copy, Debug, PartialEq, Eq, Structural)]
pub struct Inverter {
    /// Where the device is reached, and the identity under which its metrics are labelled.
    pub address: InverterAddress,
    pub state: SessionState,
    /// The identifier that the device assigned at login; zero without a session.
    pub session_id: u32,
    /// The counter of the request that was sent last.
    pub counter: u16,
    /// The protocol address of the device, recorded at login; the broadcast address before.
    pub device: Endpoint,
    /// The protocol address under which this client speaks.
    pub local: DeviceAddress,
}

/// The protocol address that reaches every device.
pub open spec fn spec_broadcast() -> Endpoint {
    Endpoint { address: DeviceAddress { low: 0xFFFF_FFFF, high: 0xFFFF }, susy_id: 0xFFFF }
}

/// The counter that follows `counter`: one more, and from the last counter
/// back to the first, so that the high bit stays set.
pub open spec fn spec_next_counter(counter: u16) -> u16 {
    if counter < FIRST_COUNTER || counter == 0xFFFF {
        FIRST_COUNTER
    } else {
        (counter + 1) as u16
    }
}

/// The password field: each of the first twelve bytes of the password XORed
/// with the key, and the key itself, which is a zero byte XORed with it, in
/// each place that is left.
pub open spec fn spec_obfuscate(password: Seq<u8>, key: u8) -> Seq<u8> {
    Seq::new(
        PASSWORD_LEN as nat,
        |i: int|
            if i < password.len() {
                password[i] ^ key
            } else {
                key
            },
    )
}

/// The parameters of a login request: class, timestamp, password field.
pub open spec fn spec_login_payload(class: UserClass, timestamp: u32, password: Seq<u8>) -> Seq<
    u8,
> {
    le32(class.spec_code() as u32) + le32(timestamp) + spec_obfuscate(password, class.spec_key())
}

/// The parameters of a read request: first register, last register, class.
pub open spec fn spec_read_payload(command: Command) -> Seq<u8> {
    le32(command.spec_window()) + le32(command.spec_window()) + le32(command.spec_class() as u32)
}

/// The frame of a request that the session `s` sends.
pub open spec fn spec_request(s: Inverter, opcode: u32, payload: Seq<u8>) -> FrameView {
    FrameView {
        group: 0,
        destination: s.device,
        source: Endpoint { address: s.local, susy_id: LOCAL_SUSY_ID },
        control: CONTROL_REQUEST,
        counter: s.counter,
        session_id: s.session_id,
        opcode,
        payload,
    }
}

/// Whether a reply's opcode answers a request's: their low 16 bits agree.
pub open spec fn spec_opcode_answers(reply: u32, request: u32) -> bool {
    reply % 0x1_0000 == request % 0x1_0000
}

/// The reply that a datagram carries, as far as the codec, the opcode and the
/// counter decide; or the first field that fails.
pub open spec fn spec_correlate(s: Inverter, opcode: u32, datagram: Seq<u8>) -> Result<
    FrameView,
    Field,
> {
    match spec_decode(datagram) {
        Err(field) => Err(field),
        Ok(reply) => if !spec_opcode_answers(reply.opcode, opcode) {
            Err(Field::Opcode)
        } else if reply.counter != s.counter {
            Err(Field::Counter)
        } else {
            Ok(reply)
        },
    }
}

/// The reply to a request of an authenticated session that a datagram
/// carries: it decodes, its opcode answers the request's, its counter is the
/// one sent last, and it comes from the device recorded at login.
pub open spec fn spec_accept(s: Inverter, opcode: u32, datagram: Seq<u8>) -> Result<
    FrameView,
    Field,
> {
    match spec_correlate(s, opcode, datagram) {
        Err(field) => Err(field),
        Ok(reply) => if reply.source != s.device {
            Err(Field::Address)
        } else {
            Ok(reply)
        },
    }
}

/// The reply to a login request that a datagram carries. The device's address
/// is not known yet; it must differ from this client's own.
pub open spec fn spec_accept_login(s: Inverter, datagram: Seq<u8>) -> Result<FrameView, Field> {
    match spec_correlate(s, OPCODE_LOGIN, datagram) {
        Err(field) => Err(field),
        Ok(reply) => if reply.source.address == s.local {
            Err(Field::Address)
        } else {
            Ok(reply)
        },
    }
}

/// What the payload of a login reply says: the session identifier, or why
/// the login failed.
pub open spec fn spec_login_outcome(payload: Seq<u8>) -> Result<u32, SessionError> {
    if payload.len() < 1 {
        Err(SessionError::Malformed(Field::Body))
    } else if payload[0] == STATUS_WRONG_PASSWORD {
        Err(SessionError::WrongPassword)
    } else if payload[0] == STATUS_LOCKED {
        Err(SessionError::Locked)
    } else if payload[0] == STATUS_UNSUPPORTED {
        Err(SessionError::Unsupported)
    } else if payload[0] != STATUS_OK {
        Err(SessionError::Malformed(Field::Status))
    } else if payload.len() < 8 {
        Err(SessionError::Malformed(Field::Body))
    } else {
        Ok(le32_at(payload, 4))
    }
}

/// What the payload of a read reply says: the command's values, or why there
/// are none.
pub open spec fn spec_poll_outcome(command: Command, payload: Seq<u8>) -> Result<
    PollData,
    SessionError,
> {
    if payload.len() < REPLY_DATA_OFFSET {
        Err(SessionError::Malformed(Field::Body))
    } else if payload[0] == STATUS_UNSUPPORTED {
        Err(SessionError::Unsupported)
    } else if payload[0] != STATUS_OK {
        Err(SessionError::Malformed(Field::Status))
    } else {
        match spec_decode_records(payload.subrange(REPLY_DATA_OFFSET as int, payload.len() as int)) {
            Err(field) => Err(SessionError::Malformed(field)),
            Ok(found) => Ok(spec_poll_data(command, found)),
        }
    }
}

/// What an outcome means for the exchange: a malformed reply is passed over,
/// anything else ends the exchange.
pub open spec fn spec_progress<T>(outcome: Result<T, SessionError>) -> Progress<T> {
    match outcome {
        Err(SessionError::Malformed(_)) => Progress::KeepReading,
        _ => Progress::Done(outcome),
    }
}

/// The session after a login reply that assigned `session_id` came from `device`.
pub open spec fn spec_authenticated(s: Inverter, session_id: u32, device: Endpoint) -> Inverter {
    Inverter { state: SessionState::Authenticated, session_id, device, ..s }
}

/// The device without its session.
pub open spec fn spec_dropped(s: Inverter) -> Inverter {
    Inverter { state: SessionState::Discovered, session_id: 0, ..s }
}

/// The counter that follows `counter`.
pub fn next_counter(counter: u16) -> (next: u16)
    ensures
        next == spec_next_counter(counter),
        next >= FIRST_COUNTER,
        FIRST_COUNTER <= counter < 0xFFFF ==> next == counter + 1,
{
    if counter < FIRST_COUNTER || counter == 0xFFFF {
        FIRST_COUNTER
    } else {
        counter + 1
    }
}

/// Builds the 12-byte password field of a login request.
pub fn obfuscate_password(password: &[u8], class: UserClass) -> (field: Vec<u8>)
    ensures
        field@ == spec_obfuscate(password@, class.spec_key()),
        field@.len() == PASSWORD_LEN,
{
    let key: u8 = class.key();
    let mut field: Vec<u8> = Vec::new();
    let mut i: usize = 0;
    while i < PASSWORD_LEN
        invariant
            i <= PASSWORD_LEN,
            key == class.spec_key(),
            field@.len() == i,
            forall|j: int| 0 <= j < i ==> field@[j] == spec_obfuscate(password@, key)[j],
        decreases PASSWORD_LEN - i,
    {
        if i < password.len() {
            field.push(password[i] ^ key);
        } else {
            field.push(key);
        }
        i += 1;
    }
    assert(field@ =~= spec_obfuscate(password@, key));
    field
}

/// Tells whether a reply's opcode answers a request's.
pub fn opcode_answers(reply: u32, request: u32) -> (answers: bool)
    ensures
        answers == spec_opcode_answers(reply, request),
{
    reply % 0x1_0000 == request % 0x1_0000
}

/// Reads the payload of a login reply.
pub fn login_outcome(payload: &[u8]) -> (outcome: Result<u32, SessionError>)
    ensures
        outcome == spec_login_outcome(payload@),
{
    if payload.len() < 1 {
        Err(SessionError::Malformed(Field::Body))
    } else if payload[0] == STATUS_WRONG_PASSWORD {
        Err(SessionError::WrongPassword)
    } else if payload[0] == STATUS_LOCKED {
        Err(SessionError::Locked)
    } else if payload[0] == STATUS_UNSUPPORTED {
        Err(SessionError::Unsupported)
    } else if payload[0] != STATUS_OK {
        Err(SessionError::Malformed(Field::Status))
    } else if payload.len() < 8 {
        Err(SessionError::Malformed(Field::Body))
    } else {
        Ok(read_u32_le(payload, 4))
    }
}

/// Reads the payload of the reply to a read command.
pub fn poll_outcome(command: Command, payload: &[u8]) -> (outcome: Result<PollData, SessionError>)
    ensures
        outcome == spec_poll_outcome(command, payload@),
{
    if payload.len() < REPLY_DATA_OFFSET {
        Err(SessionError::Malformed(Field::Body))
    } else if payload[0] == STATUS_UNSUPPORTED {
        Err(SessionError::Unsupported)
    } else if payload[0] != STATUS_OK {
        Err(SessionError::Malformed(Field::Status))
    } else {
        match decode_records(slice_subrange(payload, REPLY_DATA_OFFSET, payload.len())) {
            Err(field) => Err(SessionError::Malformed(field)),
            Ok(found) => Ok(poll_data(command, &found)),
        }
    }
}

/// The device that discovery found at `address`, to be spoken to as `local`.
pub open spec fn spec_discovered(address: InverterAddress, local: DeviceAddress) -> Inverter {
    Inverter {
        address,
        state: SessionState::Discovered,
        session_id: 0,
        counter: FIRST_COUNTER,
        device: spec_broadcast(),
        local,
    }
}

impl Inverter {
    /// Whether the session is sound: the counter has its high bit set, and a
    /// device without a session holds no session identifier.
    pub open spec fn wf(&self) -> bool {
        self.counter >= FIRST_COUNTER && (self.state == SessionState::Discovered
            ==> self.session_id == 0)
    }

    /// A device that discovery found at `address`, to be spoken to as `local`.
    pub fn new(address: InverterAddress, local: DeviceAddress) -> (inverter: Inverter)
        ensures
            inverter == spec_discovered(address, local),
            inverter.wf(),
    {
        Inverter {
            address,
            state: SessionState::Discovered,
            session_id: 0,
            counter: FIRST_COUNTER,
            device: Endpoint {
                address: DeviceAddress { low: 0xFFFF_FFFF, high: 0xFFFF },
                susy_id: 0xFFFF,
            },
            local,
        }
    }

    /// Tells whether the device is logged in.
    pub fn is_authenticated(&self) -> (yes: bool)
        ensures
            yes == (self.state == SessionState::Authenticated),
    {
        match self.state {
            SessionState::Authenticated => true,
            SessionState::Discovered => false,
        }
    }

    /// Encodes a request of this session.
    fn request(&self, opcode: u32, payload: Vec<u8>) -> (datagram: Vec<u8>)
        requires
            payload@.len() <= MAX_PAYLOAD,
        ensures
            datagram@ == spec_encode(spec_request(*self, opcode, payload@)),
    {
        let frame = Frame {
            group: 0,
            destination: self.device,
            source: Endpoint { address: self.local, susy_id: LOCAL_SUSY_ID },
            control: CONTROL_REQUEST,
            counter: self.counter,
            session_id: self.session_id,
            opcode,
            payload,
        };
        frame.encode().unwrap()
    }

    /// Judges a datagram by the codec, the opcode and the counter: the reply
    /// that it carries, or the first field that fails.
    pub fn correlate(&self, opcode: u32, datagram: &[u8]) -> (result: Result<Frame, Field>)
        ensures
            match result {
                Ok(reply) => spec_correlate(*self, opcode, datagram@) == Ok::<FrameView, Field>(
                    reply@,
                ),
                Err(field) => spec_correlate(*self, opcode, datagram@) == Err::<FrameView, Field>(
                    field,
                ),
            },
    {
        match Frame::decode(datagram) {
            Err(field) => Err(field),
            Ok(reply) => {
                if !opcode_answers(reply.opcode, opcode) {
                    Err(Field::Opcode)
                } else if reply.counter != self.counter {
                    Err(Field::Counter)
                } else {
                    Ok(reply)
                }
            },
        }
    }

    /// Judges a datagram as the reply to a request of this session with the
    /// given opcode: the reply, or the first field that fails. A datagram
    /// that fails is to be passed over.
    pub fn accept(&self, opcode: u32, datagram: &[u8]) -> (result: Result<Frame, Field>)
        ensures
            match result {
                Ok(reply) => spec_accept(*self, opcode, datagram@) == Ok::<FrameView, Field>(
                    reply@,
                ),
                Err(field) => spec_accept(*self, opcode, datagram@) == Err::<FrameView, Field>(
                    field,
                ),
            },
    {
        match self.correlate(opcode, datagram) {
            Err(field) => Err(field),
            Ok(reply) => {
                if reply.source != self.device {
                    Err(Field::Address)
                } else {
                    Ok(reply)
                }
            },
        }
    }

    /// Judges a datagram as the reply to the login request of this device.
    pub fn accept_login(&self, datagram: &[u8]) -> (result: Result<Frame, Field>)
        ensures
            match result {
                Ok(reply) => spec_accept_login(*self, datagram@) == Ok::<FrameView, Field>(reply@),
                Err(field) => spec_accept_login(*self, datagram@) == Err::<FrameView, Field>(field),
            },
    {
        match self.correlate(OPCODE_LOGIN, datagram) {
            Err(field) => Err(field),
            Ok(reply) => {
                if reply.source.address == self.local {
                    Err(Field::Address)
                } else {
                    Ok(reply)
                }
            },
        }
    }

    /// Starts a login and returns the datagram to send.
    ///
    /// Any session is dropped, the request goes to the broadcast address, and
    /// its counter is the first of a new session. The timestamp is the time in
    /// seconds since the epoch. Of a password longer than the field, the
    /// first twelve bytes are sent.
    pub fn login(&mut self, password: &[u8], class: UserClass, timestamp: u32) -> (datagram: Vec<
        u8,
    >)
        ensures
            *final(self) == (Inverter {
                state: SessionState::Discovered,
                session_id: 0,
                counter: FIRST_COUNTER,
                device: spec_broadcast(),
                ..*old(self)
            }),
            final(self).wf(),
            datagram@ == spec_encode(
                spec_request(
                    *final(self),
                    OPCODE_LOGIN,
                    spec_login_payload(class, timestamp, password@),
                ),
            ),
            datagram@.len() == PASSWORD_OFFSET + PASSWORD_LEN,
            datagram@.subrange(PASSWORD_OFFSET as int, PASSWORD_OFFSET + PASSWORD_LEN)
                == spec_obfuscate(password@, class.spec_key()),
    {
        self.state = SessionState::Discovered;
        self.session_id = 0;
        self.counter = FIRST_COUNTER;
        self.device = Endpoint {
            address: DeviceAddress { low: 0xFFFF_FFFF, high: 0xFFFF },
            susy_id: 0xFFFF,
        };
        let mut payload: Vec<u8> = Vec::new();
        push_u32_le(&mut payload, class.code() as u32);
        push_u32_le(&mut payload, timestamp);
        let field = obfuscate_password(password, class);
        let ghost before = payload@;
        let mut i: usize = 0;
        while i < field.len()
            invariant
                i <= field@.len() == PASSWORD_LEN,
                before.len() == 8,
                payload@ == before + field@.subrange(0, i as int),
            decreases field@.len() - i,
        {
            payload.push(field[i]);
            i += 1;
            assert(payload@ =~= before + field@.subrange(0, i as int));
        }
        assert(field@.subrange(0, i as int) =~= field@);
        assert(payload@ =~= spec_login_payload(class, timestamp, password@));
        proof {
            lemma_password_field(*self, class, timestamp, password@);
        }
        self.request(OPCODE_LOGIN, payload)
    }

    /// Judges a datagram that arrived while a login is under way.
    ///
    /// A datagram that is not the reply to the login, or whose payload is
    /// malformed, is passed over. A reply that refuses the login ends the
    /// exchange and leaves the device as it was. A reply that grants it makes
    /// the device authenticated, with the session identifier that the reply
    /// assigns and the protocol address that the reply came from.
    pub fn on_login_datagram(&mut self, datagram: &[u8]) -> (progress: Progress<()>)
        ensures
            match spec_accept_login(*old(self), datagram@) {
                Err(_) => progress == Progress::<()>::KeepReading && *final(self) == *old(self),
                Ok(reply) => match spec_login_outcome(reply.payload) {
                    Err(SessionError::Malformed(_)) => progress == Progress::<()>::KeepReading
                        && *final(self) == *old(self),
                    Err(error) => progress == Progress::<()>::Done(Err(error)) && *final(self)
                        == *old(self),
                    Ok(session_id) => progress == Progress::<()>::Done(Ok(())) && *final(self)
                        == spec_authenticated(*old(self), session_id, reply.source),
                },
            },
            old(self).wf() ==> final(self).wf(),
    {
        let reply = match self.accept_login(datagram) {
            Err(_) => {
                return Progress::KeepReading;
            },
            Ok(reply) => reply,
        };
        match login_outcome(reply.payload.as_slice()) {
            Err(SessionError::Malformed(_)) => Progress::KeepReading,
            Err(error) => Progress::Done(Err(error)),
            Ok(session_id) => {
                self.state = SessionState::Authenticated;
                self.session_id = session_id;
                self.device = reply.source;
                Progress::Done(Ok(()))
            },
        }
    }

    /// Starts a read command and returns the datagram to send, or `None`
    /// where the device is not logged in. The counter advances by one.
    pub fn poll(&mut self, command: Command) -> (datagram: Option<Vec<u8>>)
        ensures
            old(self).state == SessionState::Authenticated <==> datagram.is_some(),
            datagram.is_none() ==> *final(self) == *old(self),
            datagram.is_some() ==> *final(self) == (Inverter {
                counter: spec_next_counter(old(self).counter),
                ..*old(self)
            }),
            datagram.is_some() ==> final(self).counter >= FIRST_COUNTER,
            old(self).wf() ==> final(self).wf(),
            datagram.is_some() ==> datagram.unwrap()@ == spec_encode(
                spec_request(*final(self), command.spec_opcode(), spec_read_payload(command)),
            ),
    {
        if !self.is_authenticated() {
            return None;
        }
        self.counter = next_counter(self.counter);
        let mut payload: Vec<u8> = Vec::new();
        push_u32_le(&mut payload, command.window());
        push_u32_le(&mut payload, command.window());
        push_u32_le(&mut payload, command.class() as u32);
        assert(payload@ =~= spec_read_payload(command));
        Some(self.request(command.opcode(), payload))
    }

    /// Judges a datagram that arrived while a read command is under way.
    ///
    /// A datagram that is not the reply to the command, or whose payload is
    /// malformed, is passed over. Any other reply ends the exchange: with the
    /// command's values, or with `Unsupported`. The session is not changed.
    pub fn on_poll_datagram(&self, command: Command, datagram: &[u8]) -> (progress: Progress<
        PollData,
    >)
        ensures
            progress == match spec_accept(*self, command.spec_opcode(), datagram@) {
                Err(_) => Progress::<PollData>::KeepReading,
                Ok(reply) => spec_progress(spec_poll_outcome(command, reply.payload)),
            },
    {
        let reply = match self.accept(command.opcode(), datagram) {
            Err(_) => {
                return Progress::KeepReading;
            },
            Ok(reply) => reply,
        };
        match poll_outcome(command, reply.payload.as_slice()) {
            Err(SessionError::Malformed(_)) => Progress::KeepReading,
            outcome => Progress::Done(outcome),
        }
    }

    /// The deadline passed with no matching reply: the command reports a
    /// timeout, and the session stays as it is, its counter advanced.
    pub fn on_deadline(&self) -> (error: SessionError)
        ensures
            error == SessionError::Timeout,
    {
        SessionError::Timeout
    }

    /// The socket failed: the session is dropped.
    pub fn on_io_failure(&mut self) -> (error: SessionError)
        ensures
            error == SessionError::Io,
            *final(self) == spec_dropped(*old(self)),
            old(self).wf() ==> final(self).wf(),
    {
        self.state = SessionState::Discovered;
        self.session_id = 0;
        SessionError::Io
    }

    /// Ends the session and returns the datagram to send, for which no reply
    /// is awaited; `None` where the device is not logged in. The datagram
    /// carries the session identifier and the next counter; afterwards the
    /// identifier is cleared.
    pub fn logoff(&mut self) -> (datagram: Option<Vec<u8>>)
        ensures
            old(self).state == SessionState::Authenticated <==> datagram.is_some(),
            datagram.is_none() ==> *final(self) == *old(self),
            datagram.is_some() ==> *final(self) == spec_dropped(
                Inverter { counter: spec_next_counter(old(self).counter), ..*old(self) },
            ),
            datagram.is_some() ==> final(self).wf(),
            datagram.is_some() ==> datagram.unwrap()@ == spec_encode(
                spec_request(
                    Inverter { counter: spec_next_counter(old(self).counter), ..*old(self) },
                    OPCODE_LOGOFF,
                    Seq::<u8>::empty(),
                ),
            ),
    {
        if !self.is_authenticated() {
            return None;
        }
        self.counter = next_counter(self.counter);
        let datagram = self.request(OPCODE_LOGOFF, Vec::new());
        self.state = SessionState::Discovered;
        self.session_id = 0;
        Some(datagram)
    }
}

/// A login datagram is 70 bytes long and holds the password field in its
/// last twelve, whatever the session, the class, the time and the password.
pub proof fn lemma_password_field(s: Inverter, class: UserClass, timestamp: u32, password: Seq<u8>)
    ensures
        spec_encode(
            spec_request(s, OPCODE_LOGIN, spec_login_payload(class, timestamp, password)),
        ).len() == PASSWORD_OFFSET + PASSWORD_LEN,
        spec_encode(
            spec_request(s, OPCODE_LOGIN, spec_login_payload(class, timestamp, password)),
        ).subrange(PASSWORD_OFFSET as int, PASSWORD_OFFSET + PASSWORD_LEN) == spec_obfuscate(
            password,
            class.spec_key(),
        ),
{
    let payload = spec_login_payload(class, timestamp, password);
    let frame = spec_request(s, OPCODE_LOGIN, payload);
    lemma_head_layout(frame);
    assert(payload.len() == 20);
    assert(payload.subrange(8, 20) =~= spec_obfuscate(password, class.spec_key()));
    assert(spec_encode(frame).subrange(PASSWORD_OFFSET as int, PASSWORD_OFFSET + PASSWORD_LEN)
        =~= payload.subrange(8, 20));
}

/// The counter of the request that follows `n` earlier requests of a session.
pub open spec fn spec_counter_after(n: nat) -> u16
    decreases n,
{
    if n == 0 {
        FIRST_COUNTER
    } else {
        spec_next_counter(spec_counter_after((n - 1) as nat))
    }
}

/// Over the first 32768 requests of a session the counter is the first
/// counter plus the number of requests before, so that a later request
/// carries a greater counter and no two requests carry the same.
pub proof fn lemma_counters_of_a_session(j: nat, k: nat)
    requires
        j < k <= 0x7FFF,
    ensures
        spec_counter_after(k) == FIRST_COUNTER + k,
        spec_counter_after(j) < spec_counter_after(k),
    decreases k,
{
    if j + 1 < k {
        lemma_counters_of_a_session(j, (k - 1) as nat);
    } else if j > 0 {
        lemma_counters_of_a_session((j - 1) as nat, j);
    }
}

/// Within a session the counter strictly increases from one request to the
/// next, and keeps its high bit, as long as the last counter is not reached.
pub proof fn lemma_counter_increases(counter: u16)
    requires
        FIRST_COUNTER <= counter < 0xFFFF,
    ensures
        spec_next_counter(counter) > counter,
        spec_next_counter(counter) >= FIRST_COUNTER,
{
}

/// A reply that carries any counter but the one sent last, an older one
/// included, is never accepted, neither for a read command nor for a login.
pub proof fn lemma_stale_reply_rejected(s: Inverter, opcode: u32, datagram: Seq<u8>)
    requires
        spec_decode(datagram).is_ok(),
        spec_decode(datagram).unwrap().counter != s.counter,
    ensures
        spec_accept(s, opcode, datagram).is_err(),
        spec_accept_login(s, datagram).is_err(),
{
}

/// A request that a session sends is accepted as sent: decoding its datagram
/// gives back its opcode, its counter and its parameters.
pub proof fn lemma_request_round_trip(s: Inverter, opcode: u32, payload: Seq<u8>)
    requires
        payload.len() <= MAX_PAYLOAD,
    ensures
        spec_decode(spec_encode(spec_request(s, opcode, payload))) == Ok::<FrameView, Field>(
            spec_request(s, opcode, payload),
        ),
        spec_decode(spec_encode(spec_request(s, opcode, payload))).unwrap().opcode == opcode,
        spec_decode(spec_encode(spec_request(s, opcode, payload))).unwrap().counter == s.counter,
        spec_decode(spec_encode(spec_request(s, opcode, payload))).unwrap().payload == payload,
{
    lemma_decode_encode(spec_request(s, opcode, payload));
}

} // verus!
