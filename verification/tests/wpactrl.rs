use wpactrl::MessageCallback;
use wpactrl::MessageCollector;
use wpactrl::ScriptedTransport;
use wpactrl::WpaCtrl;
use wpactrl::WpaError;

struct PrintCb;

impl MessageCallback for PrintCb {
    fn on_message(&mut self, s: Result<String, WpaError>) {
        println!("CB: {:?}", s.unwrap());
    }
}

fn wpa_ctrl(stub: ScriptedTransport) -> WpaCtrl<ScriptedTransport> {
    WpaCtrl::<ScriptedTransport>::new().open(Some(stub)).unwrap()
}

fn ok_stub(transitions: usize) -> ScriptedTransport {
    let mut stub = ScriptedTransport::new(1);
    for _ in 0..transitions {
        stub.push_reply(0, b"OK\n".to_vec(), vec![]);
    }
    stub
}

#[test]
fn attach() {
    wpa_ctrl(ok_stub(4))
        .attach()
        .map_err(|(_, e)| e)
        .unwrap()
        .detach()
        .map_err(|(_, e)| e)
        .unwrap()
        .attach()
        .map_err(|(_, e)| e)
        .unwrap()
        .detach()
        .map_err(|(_, e)| e)
        .unwrap();
}

#[test]
fn detach() {
    let wpa = wpa_ctrl(ok_stub(2)).attach().map_err(|(_, e)| e).unwrap();
    wpa.detach().map_err(|(_, e)| e).unwrap();
}

#[test]
fn new() {
    wpa_ctrl(ScriptedTransport::new(1));
}

#[test]
fn request() {
    let mut stub = ScriptedTransport::new(1);
    stub.push_reply(0, b"PONG\n".to_vec(), vec![]);
    stub.push_reply(0, b"OK\n".to_vec(), vec![]);
    stub.push_reply(0, b"PONG\n".to_vec(), vec![]);
    let mut wpa = wpa_ctrl(stub);
    assert_eq!(wpa.request("PING").unwrap(), "PONG\n");
    let mut wpa_attached = wpa.attach().map_err(|(_, e)| e).unwrap();
    assert_eq!(wpa_attached.request("PING", &mut PrintCb).unwrap(), "PONG\n");
}

#[test]
fn pending() {
    let mut wpa = wpa_ctrl(ok_stub(2)).attach().map_err(|(_, e)| e).unwrap();
    assert_eq!(wpa.pending().unwrap(), false);
    wpa.detach().map_err(|(_, e)| e).unwrap();
}

#[test]
fn recv() {
    let mut stub = ScriptedTransport::new(1);
    stub.push_reply(0, b"OK\n".to_vec(), vec![]); // ATTACH
    stub.push_reply(0, b"OK\n".to_vec(), vec![]); // SCAN
    stub.push_reply(0, b"OK\n".to_vec(), vec![]); // DETACH
    stub.push_pending(1);
    stub.push_event(-1, vec![]); // nothing queued yet for the first recv
    stub.push_event(0, b"<3>CTRL-EVENT-SCAN-STARTED ".to_vec());
    let mut wpa = wpa_ctrl(stub).attach().map_err(|(_, e)| e).unwrap();
    assert_eq!(wpa.recv().unwrap_err(), WpaError::Failure);
    let mut collector = MessageCollector::new();
    assert_eq!(wpa.request("SCAN", &mut collector).unwrap(), "OK\n");
    assert!(wpa.pending().unwrap());
    assert_eq!(&wpa.recv().unwrap()[3..], "CTRL-EVENT-SCAN-STARTED ");
    wpa.detach().map_err(|(_, e)| e).unwrap();
}
