//! The client of one controller: connecting with retries, finding the
//! characteristic, sending commands and querying the status.
//!
//! The client performs no transport call itself. It is a state machine:
//! `connect`, `send_cmd`, `send_cmd_with_callback` and `get_status` begin an
//! operation, each call hands back the `Action` that the driver is to
//! perform next, and the driver reports how the action ended by calling
//! `step` with an `Event`, until the action handed back ends the operation.

use vstd::prelude::*;

use crate::codec::Codec;
use crate::commands::{Command, STATUS_RETURN_LENGTH};
use crate::error::{Error, ProtocolError, TransportError};
use crate::gatt::GattIds;
use crate::status::{decoded, StatusResp};

verus! {

/// How many times a connection is attempted before the client gives up.
pub const CONNECT_ATTEMPTS: u8 = 3;

/// How many seconds pass between two connect attempts.
pub const RETRY_DELAY_SECS: u64 = 3;

/// How many seconds a notification of a status query is waited for.
pub const STATUS_TIMEOUT_SECS: u64 = 10;

/// The place of the characteristic on the device: the position of its
/// service among the services, and its own position within the service.
#[derive(PartialEq, Eq, Clone, Copy, Debug, Structural)]
pub struct Handle {
    pub service: usize,
    pub characteristic: usize,
}

/// What the client was asked to do.
#[derive(PartialEq, Eq, Clone, Copy, Debug)]
pub enum Operation {
    /// Connect to the device and find the characteristic.
    Setup,
    /// Write the frame of a command.
    Send(Command),
    /// Subscribe to notifications, then write the frame of a command.
    Notify(Command),
    /// Subscribe to notifications, write a status query and read the
    /// notifications until a whole status has arrived.
    Query,
}

/// What follows the write of a frame.
#[derive(PartialEq, Eq, Clone, Copy, Debug, Structural)]
pub enum Followup {
    /// Nothing: the command is sent.
    Done,
    /// The caller reads the notifications.
    Notifying,
    /// The client reads the notifications into a status.
    Receiving,
}

/// Where the client stands.
#[derive(PartialEq, Eq, Clone, Copy, Debug)]
pub enum State {
    /// Nothing has been done yet.
    Disconnected,
    /// The transport was asked whether the device is connected.
    Probing(Operation),
    /// A connect attempt is under way; `failures` attempts have failed.
    Connecting { operation: Operation, failures: u8 },
    /// The client waits before the next connect attempt; `failures`
    /// attempts have failed.
    Waiting { operation: Operation, failures: u8 },
    /// The services of the device were asked for.
    ListingServices,
    /// The UUID of one of the `services` services was asked for.
    ReadingService { service: usize, services: usize },
    /// The characteristics of a service with the wanted UUID were asked
    /// for.
    ListingCharacteristics { service: usize, services: usize },
    /// The UUID of one of the `characteristics` characteristics of a
    /// service was asked for.
    ReadingCharacteristic {
        service: usize,
        services: usize,
        characteristic: usize,
        characteristics: usize,
    },
    /// The characteristic is known and no operation is under way.
    Ready,
    /// A subscription to notifications was asked for; the frame is written
    /// once it stands.
    Subscribing { frame: [u8; 5], followup: Followup },
    /// A frame is being written.
    Writing(Followup),
    /// The next notification was asked for.
    Receiving,
    /// The client has failed for good.
    Failed(Error),
}

/// What the driver is to do next, or how the operation ended.
#[derive(PartialEq, Eq, Clone, Copy, Debug)]
pub enum Action {
    /// Ask the transport whether the device is connected. Answered by
    /// `Event::Connected`.
    IsConnected,
    /// Attempt to connect. Answered by `Event::ConnectSucceeded` or
    /// `Event::ConnectFailed`.
    Connect,
    /// Wait without blocking. Answered by `Event::DelayElapsed`.
    Wait { seconds: u64 },
    /// List the services of the device. Answered by `Event::Services`.
    ListServices,
    /// Read the UUID of a service. Answered by `Event::Uuid`.
    ServiceUuid(usize),
    /// List the characteristics of a service. Answered by
    /// `Event::Characteristics`.
    ListCharacteristics(usize),
    /// Read the UUID of a characteristic of a service. Answered by
    /// `Event::Uuid`.
    CharacteristicUuid(usize, usize),
    /// Subscribe to the notifications of the characteristic. Answered by
    /// `Event::Subscribed`.
    Subscribe,
    /// Write the frame to the characteristic. Answered by `Event::Written`.
    Write([u8; 5]),
    /// Take the next notification, waiting for it no longer than the time
    /// given. Answered by `Event::Notification`, `Event::StreamEnded` or
    /// `Event::TimedOut`.
    NextNotification { seconds: u64 },
    /// The operation has ended: the device is connected and the
    /// characteristic stands at the handle.
    Connected(Handle),
    /// The operation has ended: the command is sent.
    Sent,
    /// The operation has ended: the command is sent and the notifications
    /// subscribed to before are the caller's to read.
    Notifying,
    /// The operation has ended: the controller reported this status.
    Status(StatusResp),
    /// The operation has ended in an error.
    Fail(Error),
}

/// How an action ended.
#[derive(PartialEq, Eq, Debug)]
pub enum Event {
    /// Whether the device is connected.
    Connected(bool),
    /// The connect attempt succeeded.
    ConnectSucceeded,
    /// The connect attempt failed.
    ConnectFailed,
    /// The wait is over.
    DelayElapsed,
    /// The device has this many services.
    Services(usize),
    /// The service has this many characteristics.
    Characteristics(usize),
    /// The UUID that was asked for.
    Uuid(u128),
    /// The subscription stands.
    Subscribed,
    /// The frame is written.
    Written,
    /// A notification arrived with these bytes.
    Notification(Vec<u8>),
    /// The notifications ended.
    StreamEnded,
    /// No notification arrived in the time given.
    TimedOut,
    /// The transport call failed. The driver keeps the cause.
    TransportError,
}

/// The client as a value: what it was made with, where it stands, the
/// characteristic it found and the status bytes that have arrived.
pub struct Model {
    pub codec: Codec,
    pub ids: GattIds,
    pub state: State,
    pub handle: Option<Handle>,
    pub received: Seq<u8>,
}

impl Operation {
    /// Whether the operation needs the characteristic.
    pub open spec fn needs_handle(self) -> bool {
        self !is Setup
    }
}

impl State {
    /// Whether an operation that needs the characteristic may begin, or is
    /// under way.
    pub open spec fn past_discovery(self) -> bool {
        match self {
            State::Ready => true,
            State::Subscribing { .. } => true,
            State::Writing(_) => true,
            State::Receiving => true,
            State::Probing(operation) => operation.needs_handle(),
            State::Connecting { operation, .. } => operation.needs_handle(),
            State::Waiting { operation, .. } => operation.needs_handle(),
            _ => false,
        }
    }

    /// Whether the numbers in the state agree: fewer failures than
    /// attempts allowed, at least one failure before a wait, and positions
    /// within what they count.
    pub open spec fn bounded(self) -> bool {
        match self {
            State::Connecting { failures, .. } => failures < CONNECT_ATTEMPTS,
            State::Waiting { failures, .. } => 1 <= failures < CONNECT_ATTEMPTS,
            State::ReadingService { service, services } => service < services,
            State::ListingCharacteristics { service, services } => service < services,
            State::ReadingCharacteristic { service, services, characteristic, characteristics } =>
                service < services && characteristic < characteristics,
            _ => true,
        }
    }
}

impl Model {
    /// What holds of every client: the numbers in its state agree, it knows
    /// the characteristic whenever its state needs it, and it holds status
    /// bytes only while it receives, fewer than a whole status.
    pub open spec fn wf(self) -> bool {
        &&& self.state.bounded()
        &&& self.state.past_discovery() ==> self.handle is Some
        &&& if self.state is Receiving {
            self.received.len() < STATUS_RETURN_LENGTH
        } else {
            self.received.len() == 0
        }
    }

    /// The same client in another state.
    pub open spec fn at(self, state: State) -> Model {
        Model { state, ..self }
    }

    /// The client fails for good.
    pub open spec fn fail(self, error: Error) -> (Model, Action) {
        (Model { state: State::Failed(error), received: Seq::empty(), ..self }, Action::Fail(error))
    }

    /// The operation under way ends in an error and the client is ready
    /// for the next.
    pub open spec fn reject(self, error: Error) -> (Model, Action) {
        (Model { state: State::Ready, received: Seq::empty(), ..self }, Action::Fail(error))
    }

    /// A transport call of an operation failed. During setup the client
    /// fails for good; later only the operation fails.
    pub open spec fn give_up(self, operation: Operation) -> (Model, Action) {
        if operation.needs_handle() {
            self.reject(Error::Transport(TransportError::Failed))
        } else {
            self.fail(Error::Transport(TransportError::Failed))
        }
    }

    /// The device is connected: the operation goes on with its own first
    /// transport call. A command is encoded here, and one that is refused
    /// ends the operation before anything is written.
    pub open spec fn proceed(self, operation: Operation) -> (Model, Action) {
        match operation {
            Operation::Setup => (self.at(State::ListingServices), Action::ListServices),
            Operation::Send(command) => match self.codec.encoded(command) {
                Ok(frame) => (self.at(State::Writing(Followup::Done)), Action::Write(frame)),
                Err(error) => self.reject(Error::Protocol(error)),
            },
            Operation::Notify(command) => match self.codec.encoded(command) {
                Ok(frame) => (
                    self.at(State::Subscribing { frame, followup: Followup::Notifying }),
                    Action::Subscribe,
                ),
                Err(error) => self.reject(Error::Protocol(error)),
            },
            Operation::Query => (
                self.at(
                    State::Subscribing {
                        frame: self.codec.frame_of(Command::Status),
                        followup: Followup::Receiving,
                    },
                ),
                Action::Subscribe,
            ),
        }
    }

    /// The search goes on with the service after `service`, or ends
    /// without a find if that was the last.
    pub open spec fn next_service(self, service: usize, services: usize) -> (Model, Action) {
        if service + 1 < services {
            let next = (service + 1) as usize;
            (self.at(State::ReadingService { service: next, services }), Action::ServiceUuid(next))
        } else {
            self.fail(Error::Transport(TransportError::CharacteristicNotFound))
        }
    }

    /// A chunk of status bytes arrived. Once eight bytes or more are
    /// together they are decoded, and the status or the error of the
    /// decoder ends the query; until then the next chunk is asked for.
    pub open spec fn receive(self, chunk: Seq<u8>) -> (Model, Action) {
        let all = self.received + chunk;
        if all.len() >= STATUS_RETURN_LENGTH {
            let ready = Model { state: State::Ready, received: Seq::empty(), ..self };
            match decoded(all) {
                Ok(status) => (ready, Action::Status(status)),
                Err(error) => (ready, Action::Fail(Error::Protocol(error))),
            }
        } else {
            (
                Model { received: all, ..self },
                Action::NextNotification { seconds: STATUS_TIMEOUT_SECS },
            )
        }
    }

    /// An operation is asked for. It begins, by asking whether the device
    /// is connected, if the client is in the state the operation starts
    /// from: setup from `Disconnected`, every other from `Ready`. Otherwise
    /// it is refused and the client stays as it is.
    pub open spec fn submit(self, operation: Operation) -> (Model, Action) {
        let starts = if operation.needs_handle() {
            self.state is Ready
        } else {
            self.state is Disconnected
        };
        if starts {
            (self.at(State::Probing(operation)), Action::IsConnected)
        } else {
            (self, Action::Fail(Error::ConnectionState))
        }
    }

    /// The client after an event, and what is to be done next. An event
    /// that does not answer the action under way fails the client for
    /// good, and a failed client stays failed.
    pub open spec fn step(self, event: Event) -> (Model, Action) {
        match self.state {
            State::Failed(_) => (self, Action::Fail(Error::ConnectionState)),
            State::Probing(operation) => match event {
                Event::Connected(true) => self.proceed(operation),
                Event::Connected(false) => (
                    self.at(State::Connecting { operation, failures: 0 }),
                    Action::Connect,
                ),
                Event::TransportError => self.give_up(operation),
                _ => self.fail(Error::ConnectionState),
            },
            State::Connecting { operation, failures } => match event {
                Event::ConnectSucceeded => self.proceed(operation),
                Event::ConnectFailed => if failures + 1 >= CONNECT_ATTEMPTS {
                    self.fail(Error::Transport(TransportError::ConnectionFailed))
                } else {
                    (
                        self.at(State::Waiting { operation, failures: (failures + 1) as u8 }),
                        Action::Wait { seconds: RETRY_DELAY_SECS },
                    )
                },
                _ => self.fail(Error::ConnectionState),
            },
            State::Waiting { operation, failures } => match event {
                Event::DelayElapsed => (
                    self.at(State::Connecting { operation, failures }),
                    Action::Connect,
                ),
                _ => self.fail(Error::ConnectionState),
            },
            State::ListingServices => match event {
                Event::Services(services) => if services == 0 {
                    self.fail(Error::Transport(TransportError::CharacteristicNotFound))
                } else {
                    (
                        self.at(State::ReadingService { service: 0, services }),
                        Action::ServiceUuid(0),
                    )
                },
                Event::TransportError => self.fail(Error::Transport(TransportError::Failed)),
                _ => self.fail(Error::ConnectionState),
            },
            State::ReadingService { service, services } => match event {
                Event::Uuid(id) => if id == self.ids.service {
                    (
                        self.at(State::ListingCharacteristics { service, services }),
                        Action::ListCharacteristics(service),
                    )
                } else {
                    self.next_service(service, services)
                },
                Event::TransportError => self.fail(Error::Transport(TransportError::Failed)),
                _ => self.fail(Error::ConnectionState),
            },
            State::ListingCharacteristics { service, services } => match event {
                Event::Characteristics(characteristics) => if characteristics == 0 {
                    self.next_service(service, services)
                } else {
                    (
                        self.at(
                            State::ReadingCharacteristic {
                                service,
                                services,
                                characteristic: 0,
                                characteristics,
                            },
                        ),
                        Action::CharacteristicUuid(service, 0),
                    )
                },
                Event::TransportError => self.fail(Error::Transport(TransportError::Failed)),
                _ => self.fail(Error::ConnectionState),
            },
            State::ReadingCharacteristic { service, services, characteristic, characteristics } =>
                match event {
                Event::Uuid(id) => if id == self.ids.characteristic {
                    let handle = Handle { service, characteristic };
                    (
                        Model { state: State::Ready, handle: Some(handle), ..self },
                        Action::Connected(handle),
                    )
                } else if characteristic + 1 < characteristics {
                    let next = (characteristic + 1) as usize;
                    (
                        self.at(
                            State::ReadingCharacteristic {
                                service,
                                services,
                                characteristic: next,
                                characteristics,
                            },
                        ),
                        Action::CharacteristicUuid(service, next),
                    )
                } else {
                    self.next_service(service, services)
                },
                Event::TransportError => self.fail(Error::Transport(TransportError::Failed)),
                _ => self.fail(Error::ConnectionState),
            },
            State::Subscribing { frame, followup } => match event {
                Event::Subscribed => (self.at(State::Writing(followup)), Action::Write(frame)),
                Event::TransportError => self.reject(Error::Transport(TransportError::Failed)),
                _ => self.fail(Error::ConnectionState),
            },
            State::Writing(followup) => match event {
                Event::Written => match followup {
                    Followup::Done => (self.at(State::Ready), Action::Sent),
                    Followup::Notifying => (self.at(State::Ready), Action::Notifying),
                    Followup::Receiving => (
                        self.at(State::Receiving),
                        Action::NextNotification { seconds: STATUS_TIMEOUT_SECS },
                    ),
                },
                Event::TransportError => self.reject(Error::Transport(TransportError::Failed)),
                _ => self.fail(Error::ConnectionState),
            },
            State::Receiving => match event {
                Event::Notification(chunk) => self.receive(chunk@),
                Event::StreamEnded => self.reject(
                    Error::Protocol(ProtocolError::IncompleteStatus),
                ),
                Event::TimedOut => self.reject(
                    Error::Protocol(ProtocolError::IncompleteStatus),
                ),
                Event::TransportError => self.reject(Error::Transport(TransportError::Failed)),
                _ => self.fail(Error::ConnectionState),
            },
            State::Disconnected => self.fail(Error::ConnectionState),
            State::Ready => self.fail(Error::ConnectionState),
        }
    }
}

/// The client of one controller.
pub struct LEDClient {
    codec: Codec,
    ids: GattIds,
    state: State,
    handle: Option<Handle>,
    received: Vec<u8>,
}

impl View for LEDClient {
    type V = Model;

    closed spec fn view(&self) -> Model {
        Model {
            codec: self.codec,
            ids: self.ids,
            state: self.state,
            handle: self.handle,
            received: self.received@,
        }
    }
}

impl LEDClient {
    /// Every client is well formed.
    #[verifier::type_invariant]
    closed spec fn well_formed(self) -> bool {
        self@.wf()
    }

    /// A client that has not connected yet. `connect` begins the setup.
    pub fn new(codec: Codec, ids: GattIds) -> (client: LEDClient)
        ensures
            client@ == (Model {
                codec,
                ids,
                state: State::Disconnected,
                handle: None,
                received: Seq::empty(),
            }),
            client@.wf(),
    {
        LEDClient { codec, ids, state: State::Disconnected, handle: None, received: Vec::new() }
    }

    /// Where the client stands.
    pub fn state(&self) -> (state: State)
        ensures
            state == self@.state,
            self@.wf(),
    {
        proof {
            use_type_invariant(self);
        }
        self.state
    }

    /// The place of the characteristic, once it is found.
    pub fn handle(&self) -> (handle: Option<Handle>)
        ensures
            handle == self@.handle,
    {
        self.handle
    }

    /// The codec that commands are encoded with.
    pub fn codec(&self) -> (codec: Codec)
        ensures
            codec == self@.codec,
    {
        self.codec
    }

    /// The UUIDs that the characteristic is found by.
    pub fn ids(&self) -> (ids: GattIds)
        ensures
            ids == self@.ids,
    {
        self.ids
    }

    /// Whether a command can be sent.
    pub fn is_ready(&self) -> (ready: bool)
        ensures
            ready == (self@.state is Ready),
    {
        match self.state {
            State::Ready => true,
            _ => false,
        }
    }

    /// Whether the client has failed for good.
    pub fn is_failed(&self) -> (failed: bool)
        ensures
            failed == (self@.state is Failed),
    {
        match self.state {
            State::Failed(_) => true,
            _ => false,
        }
    }

    fn fail(&mut self, error: Error) -> (action: Action)
        ensures
            (final(self)@, action) == old(self)@.fail(error),
    {
        proof {
            use_type_invariant(&*self);
        }
        self.received = Vec::new();
        self.state = State::Failed(error);
        Action::Fail(error)
    }

    fn reject(&mut self, error: Error) -> (action: Action)
        requires
            old(self)@.state.past_discovery(),
        ensures
            (final(self)@, action) == old(self)@.reject(error),
    {
        proof {
            use_type_invariant(&*self);
        }
        self.received = Vec::new();
        self.state = State::Ready;
        Action::Fail(error)
    }

    fn give_up(&mut self, operation: Operation) -> (action: Action)
        requires
            operation.needs_handle() ==> old(self)@.state.past_discovery(),
        ensures
            (final(self)@, action) == old(self)@.give_up(operation),
    {
        match operation {
            Operation::Setup => self.fail(Error::Transport(TransportError::Failed)),
            _ => self.reject(Error::Transport(TransportError::Failed)),
        }
    }

    fn proceed(&mut self, operation: Operation) -> (action: Action)
        requires
            operation.needs_handle() ==> old(self)@.state.past_discovery(),
            old(self)@.state !is Receiving,
        ensures
            (final(self)@, action) == old(self)@.proceed(operation),
    {
        proof {
            use_type_invariant(&*self);
        }
        match operation {
            Operation::Setup => {
                self.state = State::ListingServices;
                Action::ListServices
            },
            Operation::Send(command) => match self.codec.encode(&command) {
                Ok(frame) => {
                    self.state = State::Writing(Followup::Done);
                    Action::Write(frame)
                },
                Err(error) => self.reject(Error::Protocol(error)),
            },
            Operation::Notify(command) => match self.codec.encode(&command) {
                Ok(frame) => {
                    self.state = State::Subscribing { frame, followup: Followup::Notifying };
                    Action::Subscribe
                },
                Err(error) => self.reject(Error::Protocol(error)),
            },
            Operation::Query => match self.codec.encode(&Command::Status) {
                Ok(frame) => {
                    self.state = State::Subscribing { frame, followup: Followup::Receiving };
                    Action::Subscribe
                },
                Err(error) => self.reject(Error::Protocol(error)),
            },
        }
    }

    fn next_service(&mut self, service: usize, services: usize) -> (action: Action)
        requires
            service < services,
            !old(self)@.state.past_discovery(),
            old(self)@.state !is Receiving,
        ensures
            (final(self)@, action) == old(self)@.next_service(service, services),
    {
        proof {
            use_type_invariant(&*self);
        }
        if service + 1 < services {
            self.state = State::ReadingService { service: service + 1, services };
            Action::ServiceUuid(service + 1)
        } else {
            self.fail(Error::Transport(TransportError::CharacteristicNotFound))
        }
    }

    fn receive(&mut self, chunk: Vec<u8>) -> (action: Action)
        requires
            old(self)@.state is Receiving,
        ensures
            (final(self)@, action) == old(self)@.receive(chunk@),
    {
        proof {
            use_type_invariant(&*self);
        }
        let mut chunk = chunk;
        let mut all: Vec<u8> = Vec::new();
        core::mem::swap(&mut all, &mut self.received);
        all.append(&mut chunk);
        if all.len() >= STATUS_RETURN_LENGTH as usize {
            self.state = State::Ready;
            match StatusResp::decode(all.as_slice()) {
                Ok(status) => Action::Status(status),
                Err(error) => Action::Fail(Error::Protocol(error)),
            }
        } else {
            self.received = all;
            Action::NextNotification { seconds: STATUS_TIMEOUT_SECS }
        }
    }

    fn submit(&mut self, operation: Operation) -> (action: Action)
        ensures
            (final(self)@, action) == old(self)@.submit(operation),
            old(self)@.wf(),
            final(self)@.wf(),
    {
        proof {
            use_type_invariant(&*self);
        }
        let starts = match (operation, self.state) {
            (Operation::Setup, State::Disconnected) => true,
            (Operation::Setup, _) => false,
            (_, State::Ready) => true,
            _ => false,
        };
        if starts {
            self.state = State::Probing(operation);
            Action::IsConnected
        } else {
            Action::Fail(Error::ConnectionState)
        }
    }

    /// Begins the setup: connecting to the device, with retries, and
    /// finding the characteristic. The setup begins only on a client that
    /// has done nothing yet; any other refuses it with `ConnectionState`
    /// and stays as it is.
    pub fn connect(&mut self) -> (action: Action)
        ensures
            (final(self)@, action) == old(self)@.submit(Operation::Setup),
            old(self)@.wf(),
            final(self)@.wf(),
    {
        self.submit(Operation::Setup)
    }

    /// Begins sending a command: the connection is made sure of, the
    /// command is encoded and its frame written. No answer is awaited.
    /// Only a ready client begins; any other refuses with
    /// `ConnectionState` and stays as it is.
    pub fn send_cmd(&mut self, command: &Command) -> (action: Action)
        ensures
            (final(self)@, action) == old(self)@.submit(Operation::Send(*command)),
            old(self)@.wf(),
            final(self)@.wf(),
    {
        self.submit(Operation::Send(*command))
    }

    /// Begins sending a command whose answer the caller wants to read:
    /// the connection is made sure of, the command is encoded, the
    /// notifications are subscribed to and only then the frame is written,
    /// so that no notification is lost. Only a ready client begins; any
    /// other refuses with `ConnectionState` and stays as it is.
    pub fn send_cmd_with_callback(&mut self, command: &Command) -> (action: Action)
        ensures
            (final(self)@, action) == old(self)@.submit(Operation::Notify(*command)),
            old(self)@.wf(),
            final(self)@.wf(),
    {
        self.submit(Operation::Notify(*command))
    }

    /// Begins a status query: the connection is made sure of, the
    /// notifications are subscribed to, the status query is written, and
    /// notifications are read until eight bytes are together, which are
    /// then decoded. Each notification is waited for ten seconds at most;
    /// if none arrives in that time, or the notifications end, the query
    /// fails with `IncompleteStatus`. Only a ready client begins; any other
    /// refuses with `ConnectionState` and stays as it is.
    pub fn get_status(&mut self) -> (action: Action)
        ensures
            (final(self)@, action) == old(self)@.submit(Operation::Query),
            old(self)@.wf(),
            final(self)@.wf(),
    {
        self.submit(Operation::Query)
    }

    /// Takes the outcome of the action handed out last and hands out the
    /// next. See `Model::step` for every case.
    pub fn step(&mut self, event: Event) -> (action: Action)
        ensures
            (final(self)@, action) == old(self)@.step(event),
            old(self)@.wf(),
            final(self)@.wf(),
    {
        proof {
            use_type_invariant(&*self);
            lemma_step_keeps_wf(self@, event);
        }
        match self.state {
            State::Failed(_) => Action::Fail(Error::ConnectionState),
            State::Probing(operation) => match event {
                Event::Connected(true) => self.proceed(operation),
                Event::Connected(false) => {
                    self.state = State::Connecting { operation, failures: 0 };
                    Action::Connect
                },
                Event::TransportError => self.give_up(operation),
                _ => self.fail(Error::ConnectionState),
            },
            State::Connecting { operation, failures } => match event {
                Event::ConnectSucceeded => self.proceed(operation),
                Event::ConnectFailed => {
                    if failures + 1 >= CONNECT_ATTEMPTS {
                        self.fail(Error::Transport(TransportError::ConnectionFailed))
                    } else {
                        self.state = State::Waiting { operation, failures: failures + 1 };
                        Action::Wait { seconds: RETRY_DELAY_SECS }
                    }
                },
                _ => self.fail(Error::ConnectionState),
            },
            State::Waiting { operation, failures } => match event {
                Event::DelayElapsed => {
                    self.state = State::Connecting { operation, failures };
                    Action::Connect
                },
                _ => self.fail(Error::ConnectionState),
            },
            State::ListingServices => match event {
                Event::Services(services) => {
                    if services == 0 {
                        self.fail(Error::Transport(TransportError::CharacteristicNotFound))
                    } else {
                        self.state = State::ReadingService { service: 0, services };
                        Action::ServiceUuid(0)
                    }
                },
                Event::TransportError => self.fail(Error::Transport(TransportError::Failed)),
                _ => self.fail(Error::ConnectionState),
            },
            State::ReadingService { service, services } => match event {
                Event::Uuid(id) => {
                    if id == self.ids.service {
                        self.state = State::ListingCharacteristics { service, services };
                        Action::ListCharacteristics(service)
                    } else {
                        self.next_service(service, services)
                    }
                },
                Event::TransportError => self.fail(Error::Transport(TransportError::Failed)),
                _ => self.fail(Error::ConnectionState),
            },
            State::ListingCharacteristics { service, services } => match event {
                Event::Characteristics(characteristics) => {
                    if characteristics == 0 {
                        self.next_service(service, services)
                    } else {
                        self.state = State::ReadingCharacteristic {
                            service,
                            services,
                            characteristic: 0,
                            characteristics,
                        };
                        Action::CharacteristicUuid(service, 0)
                    }
                },
                Event::TransportError => self.fail(Error::Transport(TransportError::Failed)),
                _ => self.fail(Error::ConnectionState),
            },
            State::ReadingCharacteristic { service, services, characteristic, characteristics } =>
                match event {
                Event::Uuid(id) => {
                    if id == self.ids.characteristic {
                        let handle = Handle { service, characteristic };
                        self.handle = Some(handle);
                        self.state = State::Ready;
                        Action::Connected(handle)
                    } else if characteristic + 1 < characteristics {
                        self.state = State::ReadingCharacteristic {
                            service,
                            services,
                            characteristic: characteristic + 1,
                            characteristics,
                        };
                        Action::CharacteristicUuid(service, characteristic + 1)
                    } else {
                        self.next_service(service, services)
                    }
                },
                Event::TransportError => self.fail(Error::Transport(TransportError::Failed)),
                _ => self.fail(Error::ConnectionState),
            },
            State::Subscribing { frame, followup } => match event {
                Event::Subscribed => {
                    self.state = State::Writing(followup);
                    Action::Write(frame)
                },
                Event::TransportError => self.reject(Error::Transport(TransportError::Failed)),
                _ => self.fail(Error::ConnectionState),
            },
            State::Writing(followup) => match event {
                Event::Written => match followup {
                    Followup::Done => {
                        self.state = State::Ready;
                        Action::Sent
                    },
                    Followup::Notifying => {
                        self.state = State::Ready;
                        Action::Notifying
                    },
                    Followup::Receiving => {
                        self.state = State::Receiving;
                        Action::NextNotification { seconds: STATUS_TIMEOUT_SECS }
                    },
                },
                Event::TransportError => self.reject(Error::Transport(TransportError::Failed)),
                _ => self.fail(Error::ConnectionState),
            },
            State::Receiving => match event {
                Event::Notification(chunk) => self.receive(chunk),
                Event::StreamEnded => self.reject(
                    Error::Protocol(ProtocolError::IncompleteStatus),
                ),
                Event::TimedOut => self.reject(
                    Error::Protocol(ProtocolError::IncompleteStatus),
                ),
                Event::TransportError => self.reject(Error::Transport(TransportError::Failed)),
                _ => self.fail(Error::ConnectionState),
            },
            State::Disconnected => self.fail(Error::ConnectionState),
            State::Ready => self.fail(Error::ConnectionState),
        }
    }
}

/// Whatever happens, a client stays well formed.
pub proof fn lemma_step_keeps_wf(model: Model, event: Event)
    requires
        model.wf(),
    ensures
        model.step(event).0.wf(),
{
}

/// Whatever is asked of it, a client stays well formed.
pub proof fn lemma_submit_keeps_wf(model: Model, operation: Operation)
    requires
        model.wf(),
    ensures
        model.submit(operation).0.wf(),
{
}

} // verus!
