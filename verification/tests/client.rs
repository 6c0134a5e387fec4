use sp105e::client::{
    Action, Event, Handle, LEDClient, State, CONNECT_ATTEMPTS, RETRY_DELAY_SECS,
    STATUS_TIMEOUT_SECS,
};
use sp105e::codec::{Codec, Opcodes};
use sp105e::commands::{ColorOrder, Command, Kind, PixelType, StatusResp};
use sp105e::error::{Error, ProtocolError, StatusField, TransportError};
use sp105e::gatt::GattIds;

const SERVICE: u128 = 0x0000ffe0_0000_1000_8000_00805f9b34fb;
const CHARACTERISTIC: u128 = 0x0000ffe1_0000_1000_8000_00805f9b34fb;
const OTHER: u128 = 0x00001800_0000_1000_8000_00805f9b34fb;

/// A device that answers every action from what it holds and records what
/// was asked of it.
struct Device {
    connected: bool,
    refusals: u32,
    services: Vec<(u128, Vec<u128>)>,
    notifications: Vec<Vec<u8>>,
    silent: bool,
    fail_on: Option<Action>,
    log: Vec<Action>,
    written: Vec<[u8; 5]>,
    subscribed: bool,
    subscribed_at_write: Vec<bool>,
}

fn device() -> Device {
    Device {
        connected: true,
        refusals: 0,
        services: vec![
            (OTHER, vec![CHARACTERISTIC]),
            (SERVICE, vec![OTHER, CHARACTERISTIC]),
        ],
        notifications: Vec::new(),
        silent: false,
        fail_on: None,
        log: Vec::new(),
        written: Vec::new(),
        subscribed: false,
        subscribed_at_write: Vec::new(),
    }
}

fn answer(device: &mut Device, action: Action) -> Event {
    device.log.push(action);
    if device.fail_on == Some(action) {
        return Event::TransportError;
    }
    match action {
        Action::IsConnected => Event::Connected(device.connected),
        Action::Connect => {
            if device.refusals > 0 {
                device.refusals -= 1;
                Event::ConnectFailed
            } else {
                device.connected = true;
                Event::ConnectSucceeded
            }
        }
        Action::Wait { .. } => Event::DelayElapsed,
        Action::ListServices => Event::Services(device.services.len()),
        Action::ServiceUuid(service) => Event::Uuid(device.services[service].0),
        Action::ListCharacteristics(service) => {
            Event::Characteristics(device.services[service].1.len())
        }
        Action::CharacteristicUuid(service, characteristic) => {
            Event::Uuid(device.services[service].1[characteristic])
        }
        Action::Subscribe => {
            device.subscribed = true;
            Event::Subscribed
        }
        Action::Write(frame) => {
            device.written.push(frame);
            device.subscribed_at_write.push(device.subscribed);
            Event::Written
        }
        Action::NextNotification { .. } => {
            if device.notifications.is_empty() {
                if device.silent {
                    Event::TimedOut
                } else {
                    Event::StreamEnded
                }
            } else {
                Event::Notification(device.notifications.remove(0))
            }
        }
        _ => unreachable!(),
    }
}

fn is_outcome(action: &Action) -> bool {
    matches!(
        action,
        Action::Connected(_)
            | Action::Sent
            | Action::Notifying
            | Action::Status(_)
            | Action::Fail(_)
    )
}

fn drive(client: &mut LEDClient, device: &mut Device, first: Action) -> Action {
    let mut action = first;
    let mut steps = 0;
    while !is_outcome(&action) {
        let event = answer(device, action);
        action = client.step(event);
        steps += 1;
        assert!(steps < 1000);
    }
    action
}

fn ids() -> GattIds {
    GattIds { service: SERVICE, characteristic: CHARACTERISTIC }
}

fn ready_client(device: &mut Device) -> LEDClient {
    let mut client = LEDClient::new(Codec::sp105e(), ids());
    let first = client.connect();
    let outcome = drive(&mut client, device, first);
    assert_eq!(outcome, Action::Connected(Handle { service: 1, characteristic: 1 }));
    assert!(client.is_ready());
    device.log.clear();
    client
}

fn send(client: &mut LEDClient, device: &mut Device, command: &Command) -> Action {
    let first = client.send_cmd(command);
    drive(client, device, first)
}

fn query(client: &mut LEDClient, device: &mut Device) -> Action {
    let first = client.get_status();
    drive(client, device, first)
}

#[test]
fn connection() {
    let mut device = device();
    let mut client = LEDClient::new(Codec::sp105e(), GattIds::sp105e().unwrap());
    assert_eq!(client.state(), State::Disconnected);
    assert_eq!(client.handle(), None);
    let first = client.connect();
    assert_eq!(first, Action::IsConnected);
    let outcome = drive(&mut client, &mut device, first);
    assert_eq!(outcome, Action::Connected(Handle { service: 1, characteristic: 1 }));
    assert_eq!(client.state(), State::Ready);
    assert_eq!(client.handle(), Some(Handle { service: 1, characteristic: 1 }));
    assert_eq!(client.codec(), Codec::sp105e());
    assert_eq!(client.ids(), ids());
}

#[test]
fn fixed_rgb() {
    let mut device = device();
    let mut c = ready_client(&mut device);

    for command in [
        Command::FixedRed,
        Command::FixedGreen,
        Command::FixedBlue,
        Command::FixedWhite1,
        Command::FixedWhite2,
    ] {
        assert_eq!(send(&mut c, &mut device, &command), Action::Sent);
    }
    assert_eq!(
        device.written,
        vec![
            [0x38, 0, 0, 0, 0x12],
            [0x38, 0, 0, 0, 0x18],
            [0x38, 0, 0, 0, 0x36],
            [0x38, 0, 0, 0, 0x3B],
            [0x38, 0, 0, 0, 0x56],
        ]
    );
}

#[test]
fn custom_rgb() {
    let mut device = device();
    let mut c = ready_client(&mut device);

    for i in 0..10 {
        let command = Command::Color([
            255 - 25 * i,
            2 * i * i,
            std::cmp::min((1f64 / ((i * i + 1) as f64)) as u8, 255),
        ]);
        assert_eq!(send(&mut c, &mut device, &command), Action::Sent);
    }
    assert_eq!(device.written.len(), 10);
    assert_eq!(device.written[0], [0x38, 255, 0, 1, 0x1E]);
    assert_eq!(device.written[1], [0x38, 230, 2, 0, 0x1E]);
    assert_eq!(device.written[9], [0x38, 30, 162, 0, 0x1E]);
}

#[test]
fn animation() {
    let mut device = device();
    let mut c = ready_client(&mut device);

    for anim in [0, 32, 54, 96] {
        let command = Command::Animation(anim);
        assert_eq!(send(&mut c, &mut device, &command), Action::Sent);
    }
    assert_eq!(
        device.written,
        vec![
            [0x38, 0, 0, 0, 0x2C],
            [0x38, 32, 0, 0, 0x2C],
            [0x38, 54, 0, 0, 0x2C],
            [0x38, 96, 0, 0, 0x2C],
        ]
    );
}

#[test]
fn connected_device_is_not_connected_again() {
    let mut device = device();
    let mut client = LEDClient::new(Codec::sp105e(), ids());
    let first = client.connect();
    drive(&mut client, &mut device, first);
    assert_eq!(
        device.log,
        vec![
            Action::IsConnected,
            Action::ListServices,
            Action::ServiceUuid(0),
            Action::ServiceUuid(1),
            Action::ListCharacteristics(1),
            Action::CharacteristicUuid(1, 0),
            Action::CharacteristicUuid(1, 1),
        ]
    );
}

#[test]
fn connect_is_retried_after_a_wait() {
    let mut device = device();
    device.connected = false;
    device.refusals = 2;
    let mut client = LEDClient::new(Codec::sp105e(), ids());
    let first = client.connect();
    let outcome = drive(&mut client, &mut device, first);
    assert_eq!(outcome, Action::Connected(Handle { service: 1, characteristic: 1 }));
    assert_eq!(
        device.log[..7],
        [
            Action::IsConnected,
            Action::Connect,
            Action::Wait { seconds: 3 },
            Action::Connect,
            Action::Wait { seconds: 3 },
            Action::Connect,
            Action::ListServices,
        ]
    );
    assert_eq!(RETRY_DELAY_SECS, 3);
}

#[test]
fn three_failed_attempts_fail_the_client() {
    let mut device = device();
    device.connected = false;
    device.refusals = 5;
    let mut client = LEDClient::new(Codec::sp105e(), ids());
    let first = client.connect();
    let outcome = drive(&mut client, &mut device, first);
    let failed = Error::Transport(TransportError::ConnectionFailed);
    assert_eq!(outcome, Action::Fail(failed));
    assert_eq!(client.state(), State::Failed(failed));
    assert!(client.is_failed());
    assert_eq!(
        device.log,
        vec![
            Action::IsConnected,
            Action::Connect,
            Action::Wait { seconds: 3 },
            Action::Connect,
            Action::Wait { seconds: 3 },
            Action::Connect,
        ]
    );
    assert_eq!(CONNECT_ATTEMPTS, 3);
    assert_eq!(device.refusals, 2);
}

#[test]
fn failed_client_refuses_everything() {
    let mut device = device();
    device.connected = false;
    device.refusals = 3;
    let mut client = LEDClient::new(Codec::sp105e(), ids());
    let first = client.connect();
    drive(&mut client, &mut device, first);
    let failed = State::Failed(Error::Transport(TransportError::ConnectionFailed));
    let refused = Action::Fail(Error::ConnectionState);
    assert_eq!(client.send_cmd(&Command::Power), refused);
    assert_eq!(client.send_cmd_with_callback(&Command::Power), refused);
    assert_eq!(client.get_status(), refused);
    assert_eq!(client.connect(), refused);
    assert_eq!(client.step(Event::Connected(true)), refused);
    assert_eq!(client.step(Event::ConnectSucceeded), refused);
    assert_eq!(client.step(Event::Notification(vec![1, 2, 3])), refused);
    assert_eq!(client.state(), failed);
}

#[test]
fn missing_service_is_not_found() {
    let mut device = device();
    device.services = vec![(OTHER, vec![CHARACTERISTIC]), (OTHER, vec![])];
    let mut client = LEDClient::new(Codec::sp105e(), ids());
    let first = client.connect();
    let outcome = drive(&mut client, &mut device, first);
    let missing = Error::Transport(TransportError::CharacteristicNotFound);
    assert_eq!(outcome, Action::Fail(missing));
    assert_eq!(client.state(), State::Failed(missing));
    assert_eq!(
        device.log,
        vec![
            Action::IsConnected,
            Action::ListServices,
            Action::ServiceUuid(0),
            Action::ServiceUuid(1),
        ]
    );
}

#[test]
fn missing_characteristic_is_not_found() {
    let mut device = device();
    device.services = vec![(SERVICE, vec![OTHER, OTHER]), (SERVICE, vec![])];
    let mut client = LEDClient::new(Codec::sp105e(), ids());
    let first = client.connect();
    let outcome = drive(&mut client, &mut device, first);
    assert_eq!(outcome, Action::Fail(Error::Transport(TransportError::CharacteristicNotFound)));
    assert_eq!(
        device.log,
        vec![
            Action::IsConnected,
            Action::ListServices,
            Action::ServiceUuid(0),
            Action::ListCharacteristics(0),
            Action::CharacteristicUuid(0, 0),
            Action::CharacteristicUuid(0, 1),
            Action::ServiceUuid(1),
            Action::ListCharacteristics(1),
        ]
    );
}

#[test]
fn device_without_services_is_not_found() {
    let mut device = device();
    device.services = Vec::new();
    let mut client = LEDClient::new(Codec::sp105e(), ids());
    let first = client.connect();
    let outcome = drive(&mut client, &mut device, first);
    assert_eq!(outcome, Action::Fail(Error::Transport(TransportError::CharacteristicNotFound)));
}

#[test]
fn characteristic_of_a_later_service_is_found() {
    let mut device = device();
    device.services = vec![
        (SERVICE, vec![OTHER]),
        (OTHER, vec![CHARACTERISTIC]),
        (SERVICE, vec![OTHER, OTHER, CHARACTERISTIC, CHARACTERISTIC]),
    ];
    let mut client = LEDClient::new(Codec::sp105e(), ids());
    let first = client.connect();
    let outcome = drive(&mut client, &mut device, first);
    assert_eq!(outcome, Action::Connected(Handle { service: 2, characteristic: 2 }));
}

#[test]
fn discovery_that_fails_fails_the_client() {
    for failing in [
        Action::IsConnected,
        Action::ListServices,
        Action::ServiceUuid(1),
        Action::ListCharacteristics(1),
        Action::CharacteristicUuid(1, 0),
    ] {
        let mut device = device();
        device.fail_on = Some(failing);
        let mut client = LEDClient::new(Codec::sp105e(), ids());
        let first = client.connect();
        let outcome = drive(&mut client, &mut device, first);
        let failed = Error::Transport(TransportError::Failed);
        assert_eq!(outcome, Action::Fail(failed));
        assert_eq!(client.state(), State::Failed(failed));
        assert_eq!(device.log.last(), Some(&failing));
    }
}

#[test]
fn command_is_written_after_the_connection_is_made_sure_of() {
    let mut device = device();
    let mut client = ready_client(&mut device);
    assert_eq!(send(&mut client, &mut device, &Command::Power), Action::Sent);
    assert_eq!(device.log, vec![Action::IsConnected, Action::Write([0x38, 0, 0, 0, 0xAA])]);
    assert!(client.is_ready());

    device.log.clear();
    device.connected = false;
    device.refusals = 1;
    assert_eq!(send(&mut client, &mut device, &Command::SetPixels(0x0234)), Action::Sent);
    assert_eq!(
        device.log,
        vec![
            Action::IsConnected,
            Action::Connect,
            Action::Wait { seconds: 3 },
            Action::Connect,
            Action::Write([0x38, 0x02, 0x34, 0, 0x2D]),
        ]
    );
}

#[test]
fn command_out_of_range_is_not_written() {
    let mut device = device();
    let mut client = ready_client(&mut device);
    let refused = Action::Fail(Error::Protocol(ProtocolError::OutOfRange));
    assert_eq!(send(&mut client, &mut device, &Command::SetPixels(0)), refused);
    assert_eq!(send(&mut client, &mut device, &Command::SetPixels(2049)), refused);
    assert_eq!(send(&mut client, &mut device, &Command::Animation(201)), refused);
    let first = client.send_cmd_with_callback(&Command::Animation(255));
    assert_eq!(drive(&mut client, &mut device, first), refused);
    assert!(device.written.is_empty());
    assert!(!device.subscribed);
    assert!(client.is_ready());
    assert_eq!(send(&mut client, &mut device, &Command::SetPixels(2048)), Action::Sent);
}

#[test]
fn command_on_a_lost_connection_fails_the_client() {
    let mut device = device();
    let mut client = ready_client(&mut device);
    device.connected = false;
    device.refusals = 3;
    let failed = Error::Transport(TransportError::ConnectionFailed);
    assert_eq!(send(&mut client, &mut device, &Command::Power), Action::Fail(failed));
    assert_eq!(client.state(), State::Failed(failed));
    assert!(device.written.is_empty());
}

#[test]
fn write_that_fails_fails_the_command_only() {
    let mut device = device();
    let mut client = ready_client(&mut device);
    device.fail_on = Some(Action::Write([0x38, 0, 0, 0, 0xAA]));
    let failed = Action::Fail(Error::Transport(TransportError::Failed));
    assert_eq!(send(&mut client, &mut device, &Command::Power), failed);
    assert!(client.is_ready());
    device.fail_on = Some(Action::IsConnected);
    assert_eq!(send(&mut client, &mut device, &Command::Power), failed);
    assert!(client.is_ready());
    device.fail_on = None;
    assert_eq!(send(&mut client, &mut device, &Command::Power), Action::Sent);
}

#[test]
fn busy_client_refuses_a_second_operation() {
    let mut device = device();
    let mut client = ready_client(&mut device);
    assert_eq!(client.send_cmd(&Command::Power), Action::IsConnected);
    let busy = client.state();
    assert_eq!(busy, State::Probing(sp105e::client::Operation::Send(Command::Power)));
    assert_eq!(client.send_cmd(&Command::SpeedUp), Action::Fail(Error::ConnectionState));
    assert_eq!(client.get_status(), Action::Fail(Error::ConnectionState));
    assert_eq!(client.connect(), Action::Fail(Error::ConnectionState));
    assert_eq!(client.state(), busy);
    assert_eq!(drive(&mut client, &mut device, Action::IsConnected), Action::Sent);
    assert_eq!(device.written, vec![[0x38, 0, 0, 0, 0xAA]]);
}

#[test]
fn new_client_sends_nothing() {
    let mut client = LEDClient::new(Codec::sp105e(), ids());
    assert_eq!(client.send_cmd(&Command::Power), Action::Fail(Error::ConnectionState));
    assert_eq!(client.get_status(), Action::Fail(Error::ConnectionState));
    assert_eq!(client.state(), State::Disconnected);
}

#[test]
fn event_out_of_turn_fails_the_client() {
    let mut device = device();
    let mut client = ready_client(&mut device);
    assert_eq!(client.step(Event::Written), Action::Fail(Error::ConnectionState));
    assert_eq!(client.state(), State::Failed(Error::ConnectionState));

    let mut client = LEDClient::new(Codec::sp105e(), ids());
    assert_eq!(client.connect(), Action::IsConnected);
    assert_eq!(client.step(Event::Services(3)), Action::Fail(Error::ConnectionState));
    assert!(client.is_failed());
}

#[test]
fn status_is_subscribed_to_before_the_query_is_written() {
    let mut device = device();
    let mut client = ready_client(&mut device);
    device.notifications = vec![vec![1, 5, 3, 4, 9, 2, 1, 0xF4]];
    let outcome = query(&mut client, &mut device);
    assert_eq!(
        outcome,
        Action::Status(StatusResp {
            power: 1,
            mode: Command::Animation(5),
            speed: 3,
            brightness: 4,
            pixel_type: PixelType::APA102,
            color_order: ColorOrder::GRB,
            _unknown: [1, 0xF4],
        })
    );
    assert_eq!(
        device.log,
        vec![
            Action::IsConnected,
            Action::Subscribe,
            Action::Write([0x38, 0, 0, 0, 0x10]),
            Action::NextNotification { seconds: 10 },
        ]
    );
    assert_eq!(device.subscribed_at_write, vec![true]);
    assert!(client.is_ready());
}

#[test]
fn status_is_put_together_from_chunks() {
    let mut device = device();
    let mut client = ready_client(&mut device);
    device.notifications = vec![vec![0, 0xCE], vec![], vec![6, 6, 26], vec![5, 1, 0xF4]];
    let outcome = query(&mut client, &mut device);
    assert_eq!(
        outcome,
        Action::Status(StatusResp {
            power: 0,
            mode: Command::FixedWhite2,
            speed: 6,
            brightness: 6,
            pixel_type: PixelType::SK9822,
            color_order: ColorOrder::BGR,
            _unknown: [1, 0xF4],
        })
    );
    assert_eq!(device.log.len(), 7);
    assert!(device.notifications.is_empty());

    device.log.clear();
    device.notifications = vec![vec![1, 0xC9, 0, 0, 0, 0, 0, 0], vec![9, 9]];
    let outcome = query(&mut client, &mut device);
    assert!(matches!(outcome, Action::Status(status) if status.mode == Command::Color([0, 0, 0])));
    assert_eq!(device.notifications, vec![vec![9, 9]]);
}

#[test]
fn status_that_ends_early_is_incomplete() {
    let incomplete = Action::Fail(Error::Protocol(ProtocolError::IncompleteStatus));
    let mut device = device();
    let mut client = ready_client(&mut device);
    device.notifications = vec![vec![1, 5, 3], vec![4, 9, 2, 1]];
    assert_eq!(query(&mut client, &mut device), incomplete);
    assert!(client.is_ready());
    device.notifications = Vec::new();
    assert_eq!(query(&mut client, &mut device), incomplete);
    device.notifications = vec![vec![1, 5, 3, 4, 9, 2, 1, 0xF4]];
    assert!(matches!(query(&mut client, &mut device), Action::Status(_)));
}

#[test]
fn status_that_does_not_arrive_in_time_is_incomplete() {
    let incomplete = Action::Fail(Error::Protocol(ProtocolError::IncompleteStatus));
    let mut device = device();
    let mut client = ready_client(&mut device);
    device.silent = true;
    device.notifications = vec![vec![1, 5, 3, 4, 9, 2, 1]];
    assert_eq!(query(&mut client, &mut device), incomplete);
    assert_eq!(
        device.log.last(),
        Some(&Action::NextNotification { seconds: STATUS_TIMEOUT_SECS })
    );
    assert_eq!(STATUS_TIMEOUT_SECS, 10);
    assert!(client.is_ready());
    device.silent = false;
    device.notifications = vec![vec![1, 5, 3, 4, 9, 2, 1, 0xF4]];
    assert!(matches!(query(&mut client, &mut device), Action::Status(_)));

    let mut client = ready_client(&mut device);
    assert_eq!(client.step(Event::TimedOut), Action::Fail(Error::ConnectionState));
    assert!(client.is_failed());
}

#[test]
fn status_that_is_too_long_is_malformed() {
    let mut device = device();
    let mut client = ready_client(&mut device);
    device.notifications = vec![vec![1, 5, 3, 4, 9], vec![2, 1, 0xF4, 0]];
    assert_eq!(
        query(&mut client, &mut device),
        Action::Fail(Error::Protocol(ProtocolError::MalformedStatus))
    );
    assert!(client.is_ready());
}

#[test]
fn status_that_cannot_be_read_fails_the_query() {
    let mut device = device();
    let mut client = ready_client(&mut device);
    device.notifications = vec![vec![1, 0xCF, 3, 4, 9, 2, 1, 0xF4]];
    assert_eq!(
        query(&mut client, &mut device),
        Action::Fail(Error::Protocol(ProtocolError::UnknownMode(0xCF)))
    );
    device.notifications = vec![vec![1, 5, 3, 4, 27, 2, 1, 0xF4]];
    assert_eq!(
        query(&mut client, &mut device),
        Action::Fail(Error::Protocol(ProtocolError::InvalidEnumValue {
            field: StatusField::PixelType,
            value: 27,
        }))
    );
    device.notifications = vec![vec![1, 5, 3, 4, 9, 6, 1, 0xF4]];
    assert_eq!(
        query(&mut client, &mut device),
        Action::Fail(Error::Protocol(ProtocolError::InvalidEnumValue {
            field: StatusField::ColorOrder,
            value: 6,
        }))
    );
    assert!(client.is_ready());
}

#[test]
fn query_that_fails_on_the_transport_fails_the_query_only() {
    for failing in [
        Action::Subscribe,
        Action::Write([0x38, 0, 0, 0, 0x10]),
        Action::NextNotification { seconds: 10 },
    ] {
        let mut device = device();
        let mut client = ready_client(&mut device);
        device.notifications = vec![vec![1, 5, 3, 4, 9, 2, 1, 0xF4]];
        device.fail_on = Some(failing);
        assert_eq!(
            query(&mut client, &mut device),
            Action::Fail(Error::Transport(TransportError::Failed))
        );
        assert!(client.is_ready());
    }
}

#[test]
fn notifications_are_left_to_the_caller() {
    let mut device = device();
    let mut client = ready_client(&mut device);
    let first = client.send_cmd_with_callback(&Command::Hello);
    assert_eq!(drive(&mut client, &mut device, first), Action::Notifying);
    assert_eq!(
        device.log,
        vec![Action::IsConnected, Action::Subscribe, Action::Write([0x38, 0, 0, 0, 0xD5])]
    );
    assert_eq!(device.subscribed_at_write, vec![true]);
    assert!(client.is_ready());
}

#[test]
fn client_of_another_family() {
    let opcodes = Opcodes::standard().with(Kind::Status, 0x11);
    let codec = Codec::new(0x3B, opcodes).unwrap();
    let mut device = device();
    device.services = vec![(7, vec![8])];
    let mut client = LEDClient::new(codec, GattIds { service: 7, characteristic: 8 });
    let first = client.connect();
    assert_eq!(
        drive(&mut client, &mut device, first),
        Action::Connected(Handle { service: 0, characteristic: 0 })
    );
    assert_eq!(send(&mut client, &mut device, &Command::Power), Action::Sent);
    device.notifications = vec![vec![1, 5, 3, 4, 9, 2, 1, 0xF4]];
    assert!(matches!(query(&mut client, &mut device), Action::Status(_)));
    assert_eq!(device.written, vec![[0x3B, 0, 0, 0, 0xAA], [0x3B, 0, 0, 0, 0x11]]);
}
