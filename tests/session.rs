use yeerugina::command::{Command, CommandKind};
use yeerugina::effect::Effect;
use yeerugina::lamp::{parse_id, CorrelationError, Lamp, SendError};
use yeerugina::value::{Value, ValueKind};
use yeerugina::wire::EncodingError;

fn toggle() -> Command {
    Command::new(CommandKind::Toggle, None, None, Effect::new_sudden()).unwrap()
}

fn connected() -> Lamp<()> {
    let mut lamp = Lamp::new(String::from("Livingroom"));
    lamp.attach(());
    lamp
}

fn send(lamp: &mut Lamp<()>, cmd: &Command) -> Result<u8, SendError<()>> {
    let req = lamp.prepare_send::<()>(cmd)?;
    let id = req.id;
    let sent = lamp.finish_send(Ok(()));
    assert_eq!(sent, Ok(id));
    sent
}

#[test]
fn new_lamp_is_disconnected() {
    let lamp: Lamp<()> = Lamp::new(String::from("Kitchen"));
    assert!(!lamp.is_connected());
    assert_eq!(lamp.cmd_count(), 0);
    assert_eq!(lamp.name(), "Kitchen");
    assert!(lamp.stream().is_none());
}

#[test]
fn send_needs_a_session() {
    let mut lamp: Lamp<()> = Lamp::new(String::from("Kitchen"));
    assert_eq!(lamp.prepare_send::<()>(&toggle()), Err(SendError::NotConnected));
    lamp.attach(());
    assert!(lamp.is_connected());
    assert!(lamp.prepare_send::<()>(&toggle()).is_ok());
}

#[test]
fn prepared_request_carries_counter() {
    let mut lamp = connected();
    let cmd = Command::new(
        CommandKind::SetCtAbx,
        Some(Value::new(3700, ValueKind::ColorTemp).unwrap()),
        None,
        Effect::new_sudden(),
    )
    .unwrap();
    for _ in 0..32 {
        send(&mut lamp, &toggle()).unwrap();
    }
    let req = lamp.prepare_send::<()>(&cmd).unwrap();
    assert_eq!(req.id, 32);
    assert_eq!(req.text, "{\"id\":32,\"method\":\"set_ct_abx\",\"params\":[3700,\"sudden\"]}\r\n");
    assert_eq!(lamp.cmd_count(), 32);
}

#[test]
fn inconsistent_command_keeps_counter() {
    let mut lamp = connected();
    send(&mut lamp, &toggle()).unwrap();
    let bad = Command { kind: CommandKind::SetRgb, param_1: None, param_2: None, effect: Effect::new_sudden() };
    assert_eq!(
        lamp.prepare_send::<()>(&bad),
        Err(SendError::Encoding(EncodingError::Inconsistent))
    );
    assert_eq!(lamp.cmd_count(), 1);
}

#[test]
fn failed_write_keeps_counter() {
    let mut lamp = connected();
    send(&mut lamp, &toggle()).unwrap();
    let req = lamp.prepare_send::<&str>(&toggle()).unwrap();
    assert_eq!(req.id, 1);
    assert_eq!(lamp.finish_send(Err("broken pipe")), Err(SendError::Write("broken pipe")));
    assert_eq!(lamp.cmd_count(), 1);
    assert_eq!(send(&mut lamp, &toggle()), Ok(1));
}

#[test]
fn ids_wrap_after_full_cycle() {
    let mut lamp = connected();
    let mut ids = Vec::new();
    for _ in 0..255 {
        ids.push(send(&mut lamp, &toggle()).unwrap());
    }
    assert_eq!(ids, (0..=254).collect::<Vec<u8>>());
    assert_eq!(lamp.cmd_count(), 255);
    assert_eq!(send(&mut lamp, &toggle()), Ok(255));
    assert_eq!(lamp.cmd_count(), 0);
    assert_eq!(send(&mut lamp, &toggle()), Ok(0));
}

#[test]
fn latest_after_sixth_send() {
    let mut lamp = connected();
    for expected in 0..6u8 {
        assert_eq!(send(&mut lamp, &toggle()), Ok(expected));
    }
    assert_eq!(lamp.cmd_count(), 6);
    assert_eq!(lamp.is_latest_cmd(b"{\"id\":5,\"result\":[\"ok\"]}\r\n"), Ok(true));
    assert_eq!(lamp.is_latest_cmd(b"{\"id\":4,\"result\":[\"ok\"]}\r\n"), Ok(false));
}

#[test]
fn latest_at_counter_zero_is_255() {
    let lamp = connected();
    assert_eq!(lamp.is_latest_cmd(b"{\"id\":255,\"result\":[\"ok\"]}"), Ok(true));
    assert_eq!(lamp.is_latest_cmd(b"{\"id\":0,\"result\":[\"ok\"]}"), Ok(false));
}

#[test]
fn response_without_id() {
    let lamp = connected();
    assert_eq!(lamp.is_latest_cmd(b"{\"method\":\"props\"}"), Err(CorrelationError::NoIdFound));
    assert_eq!(lamp.is_latest_cmd(b"\"id\":x"), Err(CorrelationError::NoIdFound));
    assert_eq!(lamp.is_latest_cmd(b""), Err(CorrelationError::NoIdFound));
}

#[test]
fn response_with_malformed_id() {
    let lamp = connected();
    assert_eq!(lamp.is_latest_cmd(b"{\"id\":300}"), Err(CorrelationError::MalformedId));
    assert_eq!(lamp.is_latest_cmd(b"{\"id\":99999999999999999999}"), Err(CorrelationError::MalformedId));
}

#[test]
fn first_id_is_used() {
    let mut lamp = connected();
    send(&mut lamp, &toggle()).unwrap();
    assert_eq!(lamp.is_latest_cmd(b"\"id\":0 then \"id\":7"), Ok(true));
    assert_eq!(lamp.is_latest_cmd(b"\"id\":7 then \"id\":0"), Ok(false));
    assert_eq!(lamp.is_latest_cmd(b"{\"id\":000}"), Ok(true));
}

#[test]
fn check_extracted_id() {
    let lamp = connected();
    assert_eq!(lamp.check_response_id(None), Err(CorrelationError::NoIdFound));
    assert_eq!(lamp.check_response_id(Some(b"255")), Ok(true));
    assert_eq!(lamp.check_response_id(Some(b"12")), Ok(false));
    assert_eq!(lamp.check_response_id(Some(b"256")), Err(CorrelationError::MalformedId));
    assert_eq!(lamp.check_response_id(Some(b"")), Err(CorrelationError::MalformedId));
}

#[test]
fn parse_id_cases() {
    assert_eq!(parse_id(b"0"), Some(0));
    assert_eq!(parse_id(b"5"), Some(5));
    assert_eq!(parse_id(b"255"), Some(255));
    assert_eq!(parse_id(b"0255"), Some(255));
    assert_eq!(parse_id(b"256"), None);
    assert_eq!(parse_id(b"1000"), None);
    assert_eq!(parse_id(b""), None);
    assert_eq!(parse_id(b"1a"), None);
    assert_eq!(parse_id(b"-1"), None);
}
