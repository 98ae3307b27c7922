use wpactrl::MessageCollector;
use wpactrl::ScriptedTransport;
use wpactrl::WpaCtrl;
use wpactrl::WpaCtrlBuilder;
use wpactrl::WpaError;
use wpactrl::BUF_CAPACITY;

fn open_with(stub: ScriptedTransport) -> WpaCtrl<ScriptedTransport> {
    WpaCtrl::<ScriptedTransport>::new().open(Some(stub)).unwrap()
}

fn ok_stub(transitions: usize) -> ScriptedTransport {
    let mut stub = ScriptedTransport::new(1);
    for _ in 0..transitions {
        stub.push_reply(0, b"OK\n".to_vec(), vec![]);
    }
    stub
}

#[test]
fn close_runs_exactly_once_plain() {
    let conn = open_with(ScriptedTransport::new(1));
    let spent = conn.close();
    assert_eq!(spent.close_count(), 1);
}

#[test]
fn close_runs_exactly_once_through_transitions() {
    let conn = open_with(ok_stub(2));
    let attached = conn.attach().map_err(|(_, e)| e).unwrap();
    let conn = attached.detach().map_err(|(_, e)| e).unwrap();
    let spent = conn.close();
    assert_eq!(spent.close_count(), 1);
}

#[test]
fn close_runs_exactly_once_after_failed_attach() {
    let mut stub = ScriptedTransport::new(1);
    stub.push_reply(0, b"FAIL\n".to_vec(), vec![]);
    let conn = open_with(stub);
    let (conn, err) = conn.attach().err().unwrap();
    assert_eq!(err, WpaError::Failure);
    let spent = conn.close();
    assert_eq!(spent.close_count(), 1);
}

#[test]
fn attach_then_detach_restores_operations() {
    let mut stub = ok_stub(2);
    stub.push_reply(0, b"PONG\n".to_vec(), vec![]);
    let conn = open_with(stub);
    let attached = conn.attach().map_err(|(_, e)| e).unwrap();
    let mut conn = attached.detach().map_err(|(_, e)| e).unwrap();
    assert_eq!(conn.request("PING").unwrap(), "PONG\n");
    assert_eq!(conn.close().close_count(), 1);
}

#[test]
fn request_ping_returns_pong() {
    let mut stub = ScriptedTransport::new(1);
    stub.push_reply(0, b"PONG\n".to_vec(), vec![]);
    let mut conn = open_with(stub);
    assert_eq!(conn.request("PING").unwrap(), "PONG\n");
}

#[test]
fn fresh_attachment_has_nothing_pending() {
    let mut attached = open_with(ok_stub(1)).attach().map_err(|(_, e)| e).unwrap();
    assert_eq!(attached.pending().unwrap(), false);
    assert_eq!(attached.recv().unwrap_err(), WpaError::Failure);
}

#[test]
fn reply_at_buffer_capacity_is_kept_whole() {
    let mut stub = ScriptedTransport::new(1);
    stub.push_reply(0, vec![b'a'; BUF_CAPACITY], vec![]);
    let mut conn = open_with(stub);
    let reply = conn.request("DUMP").unwrap();
    assert_eq!(reply.len(), BUF_CAPACITY);
    assert!(reply.bytes().all(|b| b == b'a'));
}

#[test]
fn reply_over_buffer_capacity_is_cut_at_capacity() {
    let mut stub = ScriptedTransport::new(1);
    let mut data = vec![b'a'; BUF_CAPACITY];
    data.push(b'z');
    assert_eq!(data.len(), BUF_CAPACITY + 1);
    stub.push_reply(0, data, vec![]);
    let mut conn = open_with(stub);
    let reply = conn.request("DUMP").unwrap();
    assert_eq!(reply.len(), BUF_CAPACITY);
    assert!(reply.bytes().all(|b| b == b'a'));
}

#[test]
fn invalid_utf8_reply_is_a_decode_error() {
    let mut stub = ScriptedTransport::new(1);
    stub.push_reply(0, vec![0xff, 0xfe, 0xfd], vec![]);
    let mut conn = open_with(stub);
    assert_eq!(conn.request("PING").unwrap_err(), WpaError::Decode);
}

#[test]
fn invalid_utf8_event_is_a_decode_error() {
    let mut stub = ScriptedTransport::new(1);
    stub.push_reply(0, b"OK\n".to_vec(), vec![]);
    stub.push_event(0, vec![0x80]);
    let mut attached = open_with(stub).attach().map_err(|(_, e)| e).unwrap();
    assert_eq!(attached.recv().unwrap_err(), WpaError::Decode);
}

#[test]
fn callbacks_are_not_crossed_between_connections() {
    let mut stub_a = ScriptedTransport::new(1);
    stub_a.push_reply(0, b"OK\n".to_vec(), vec![]);
    stub_a.push_reply(0, b"PONG\n".to_vec(), vec![b"<3>EVENT-A".to_vec()]);
    let mut stub_b = ScriptedTransport::new(2);
    stub_b.push_reply(0, b"OK\n".to_vec(), vec![]);
    stub_b.push_reply(0, b"PONG\n".to_vec(), vec![b"<3>EVENT-B".to_vec()]);

    let mut attached_a = open_with(stub_a).attach().map_err(|(_, e)| e).unwrap();
    let mut attached_b = open_with(stub_b).attach().map_err(|(_, e)| e).unwrap();
    let mut collector_a = MessageCollector::new();
    let mut collector_b = MessageCollector::new();
    assert_eq!(attached_a.request("PING", &mut collector_a).unwrap(), "PONG\n");
    assert_eq!(attached_b.request("PING", &mut collector_b).unwrap(), "PONG\n");

    assert_eq!(collector_a.messages.len(), 1);
    assert_eq!(collector_a.messages[0].as_ref().unwrap(), "<3>EVENT-A");
    assert_eq!(collector_b.messages.len(), 1);
    assert_eq!(collector_b.messages[0].as_ref().unwrap(), "<3>EVENT-B");
}

#[test]
fn invalid_utf8_out_of_band_message_reaches_the_callback_as_decode_error() {
    let mut stub = ScriptedTransport::new(1);
    stub.push_reply(0, b"OK\n".to_vec(), vec![]);
    stub.push_reply(0, b"PONG\n".to_vec(), vec![vec![0xC0, 0x00]]);
    let mut attached = open_with(stub).attach().map_err(|(_, e)| e).unwrap();
    let mut collector = MessageCollector::new();
    assert_eq!(attached.request("PING", &mut collector).unwrap(), "PONG\n");
    assert_eq!(collector.messages.len(), 1);
    assert_eq!(collector.messages[0], Err(WpaError::Decode));
}

#[test]
fn attach_with_non_ok_reply_fails_and_keeps_the_connection() {
    let mut stub = ScriptedTransport::new(1);
    stub.push_reply(0, b"PONG\n".to_vec(), vec![]);
    stub.push_reply(0, b"PONG\n".to_vec(), vec![]);
    let conn = open_with(stub);
    let (mut conn, err) = conn.attach().err().unwrap();
    assert_eq!(err, WpaError::Failure);
    assert_eq!(conn.request("PING").unwrap(), "PONG\n");
    assert_eq!(conn.close().close_count(), 1);
}

#[test]
fn attach_passes_transport_errors_through() {
    let mut stub = ScriptedTransport::new(1);
    stub.push_reply(-2, vec![], vec![]);
    let (_, err) = open_with(stub).attach().err().unwrap();
    assert_eq!(err, WpaError::Timeout);
}

#[test]
fn command_with_embedded_nul_is_rejected() {
    let mut conn = open_with(ScriptedTransport::new(1));
    assert_eq!(conn.request("PI\0NG").unwrap_err(), WpaError::InvalidCommand);
}

#[test]
fn request_maps_every_status_code() {
    let mut stub = ScriptedTransport::new(1);
    stub.push_reply(-1, vec![], vec![]);
    stub.push_reply(-2, vec![], vec![]);
    stub.push_reply(7, vec![], vec![]);
    let mut conn = open_with(stub);
    assert_eq!(conn.request("PING").unwrap_err(), WpaError::Failure);
    assert_eq!(conn.request("PING").unwrap_err(), WpaError::Timeout);
    assert_eq!(conn.request("PING").unwrap_err(), WpaError::Unknown(7));
}

#[test]
fn pending_maps_every_status_code() {
    let mut stub = ScriptedTransport::new(1);
    stub.push_reply(0, b"OK\n".to_vec(), vec![]);
    stub.push_pending(1);
    stub.push_pending(0);
    stub.push_pending(-1);
    stub.push_pending(9);
    let mut attached = open_with(stub).attach().map_err(|(_, e)| e).unwrap();
    assert_eq!(attached.pending().unwrap(), true);
    assert_eq!(attached.pending().unwrap(), false);
    assert_eq!(attached.pending().unwrap_err(), WpaError::Failure);
    assert_eq!(attached.pending().unwrap_err(), WpaError::Unknown(9));
}

#[test]
fn open_without_a_handle_reports_interface_failure() {
    let err = match WpaCtrl::<ScriptedTransport>::new().open(None::<ScriptedTransport>) {
        Ok(_) => panic!("open without a handle must fail"),
        Err(e) => e,
    };
    assert_eq!(err, WpaError::Interface);
}

#[test]
fn builder_resolves_the_default_control_path() {
    let builder = WpaCtrl::<ScriptedTransport>::new();
    assert_eq!(builder.resolved_ctrl_path(), "/var/run/wpa_supplicant/wlan0");
    let builder = builder.ctrl_path(Some("/run/sock".to_owned()));
    assert_eq!(builder.resolved_ctrl_path(), "/run/sock");
}

#[test]
fn builder_keeps_the_client_path() {
    let builder = WpaCtrlBuilder::default().cli_path(Some("/tmp/cli".to_owned()));
    assert_eq!(builder.cli_path.as_deref(), Some("/tmp/cli"));
    assert_eq!(builder.ctrl_path, None);
}

#[test]
fn error_messages_name_each_failure() {
    assert_eq!(WpaError::Failure.message(), "An error occurred");
    assert_eq!(WpaError::Interface.message(), "Failed to create interface");
    assert_eq!(WpaError::Timeout.message(), "Timed out");
    assert_eq!(WpaError::Decode.message(), "Reply was not valid UTF-8");
    assert_eq!(WpaError::InvalidCommand.message(), "Command holds an embedded NUL");
    assert_eq!(WpaError::Unknown(3).message(), "Unknown error");
}

#[test]
fn detach_with_non_ok_reply_fails_and_keeps_the_attachment() {
    let mut stub = ScriptedTransport::new(1);
    stub.push_reply(0, b"OK\n".to_vec(), vec![]);
    stub.push_reply(0, b"NO\n".to_vec(), vec![]);
    stub.push_pending(1);
    let attached = open_with(stub).attach().map_err(|(_, e)| e).unwrap();
    let (mut attached, err) = attached.detach().err().unwrap();
    assert_eq!(err, WpaError::Failure);
    assert_eq!(attached.pending().unwrap(), true);
    assert_eq!(attached.close().close_count(), 1);
}
