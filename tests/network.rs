use drogue_esp8266::network::{Mode, NbError, ReadPlan, SocketError, SocketState, TcpSocket};

fn connected(mode: Mode) -> TcpSocket {
    let mut s = TcpSocket::open(mode, Ok(3)).unwrap();
    assert_eq!(s.connect(Ok(())), Ok(()));
    s
}

#[test]
fn open_gives_an_open_socket_on_the_adapter_link() {
    let s = TcpSocket::open(Mode::Blocking, Ok(4)).unwrap();
    assert_eq!(s.link_id(), 4);
    assert_eq!(s.mode(), Mode::Blocking);
    assert_eq!(s.state(), SocketState::Open);
}

#[test]
fn open_passes_the_adapter_error_on() {
    let r = TcpSocket::open(Mode::NonBlocking, Err(SocketError::NoAvailableSockets));
    assert!(matches!(r, Err(SocketError::NoAvailableSockets)));
}

#[test]
fn read_and_write_before_connect_fail() {
    let s = TcpSocket::open(Mode::NonBlocking, Ok(0)).unwrap();
    assert_eq!(s.io_link(), Err(SocketError::NotConnected));
    assert_eq!(s.read_plan(), Err(SocketError::NotConnected));
}

#[test]
fn failed_connect_leaves_socket_open() {
    let mut s = TcpSocket::open(Mode::NonBlocking, Ok(1)).unwrap();
    assert_eq!(s.connect(Err(SocketError::UnableToConnect)), Err(SocketError::UnableToConnect));
    assert_eq!(s.state(), SocketState::Open);
    assert_eq!(s.link_id(), 1);
    assert_eq!(s.connect(Ok(())), Ok(()));
    assert_eq!(s.state(), SocketState::Connected);
    assert_eq!(s.io_link(), Ok(1));
}

#[test]
fn closed_socket_refuses_everything() {
    let mut s = connected(Mode::NonBlocking);
    assert_eq!(s.close(), Ok(3));
    assert_eq!(s.state(), SocketState::Closed);
    assert_eq!(s.io_link(), Err(SocketError::SocketClosed));
    assert_eq!(s.live_link(), Err(SocketError::SocketClosed));
    assert_eq!(s.read_plan(), Err(SocketError::SocketClosed));
    assert_eq!(s.connect(Ok(())), Err(SocketError::SocketClosed));
    assert_eq!(s.state(), SocketState::Closed);
    assert_eq!(s.close(), Err(SocketError::SocketClosed));
}

#[test]
fn non_blocking_read_returns_would_block_at_once() {
    let s = connected(Mode::NonBlocking);
    assert_eq!(s.read_plan(), Ok(ReadPlan::Once(3)));
    assert_eq!(s.read_step(Err(NbError::WouldBlock)), Some(Err(NbError::WouldBlock)));
    assert_eq!(s.read_step(Ok(5)), Some(Ok(5)));
}

#[test]
fn blocking_read_polls_until_data_arrives() {
    let s = connected(Mode::Blocking);
    assert_eq!(s.read_plan(), Ok(ReadPlan::Poll(3)));
    let mut answers = vec![Err(NbError::WouldBlock); 7];
    answers.push(Ok(42));
    let mut polls = 0;
    let mut result = None;
    for a in answers {
        polls += 1;
        if let Some(r) = s.read_step(a) {
            result = Some(r);
            break;
        }
    }
    assert_eq!(polls, 8);
    assert_eq!(result, Some(Ok(42)));
}

#[test]
fn blocking_read_stops_on_a_real_error() {
    let s = connected(Mode::Blocking);
    assert_eq!(
        s.read_step(Err(NbError::Other(SocketError::ReadError))),
        Some(Err(NbError::Other(SocketError::ReadError)))
    );
}

#[test]
fn timeout_read_is_unsupported() {
    let s = connected(Mode::Timeout(100));
    assert_eq!(s.read_plan(), Err(SocketError::Unsupported));
}

#[test]
fn timeout_read_is_unsupported_before_connect_and_after_close() {
    let mut s = TcpSocket::open(Mode::Timeout(250), Ok(2)).unwrap();
    assert_eq!(s.read_plan(), Err(SocketError::Unsupported));
    assert_eq!(s.io_link(), Err(SocketError::NotConnected));
    assert_eq!(s.close(), Ok(2));
    assert_eq!(s.read_plan(), Err(SocketError::Unsupported));
}
