use tcp_echo::session::{Action, Connection, Event, SessionState, BUFFER_SIZE};

/// Drives a fresh session: a read of each chunk, each write completing, then
/// the peer's shutdown. Gives the chunks written and the session's last state.
fn echo_all(chunks: &[Vec<u8>]) -> (Vec<Vec<u8>>, SessionState) {
    let mut connection = Connection::new(String::from("127.0.0.1:40000"));
    assert_eq!(connection.start(), Action::Read(BUFFER_SIZE));
    let mut written = Vec::new();
    for chunk in chunks {
        match connection.step(Event::Received(chunk.clone())) {
            Action::Write(bytes) => written.push(bytes),
            other => panic!("expected a write, got {:?}", other),
        }
        assert_eq!(connection.step(Event::Written), Action::Read(BUFFER_SIZE));
    }
    assert_eq!(connection.step(Event::Received(Vec::new())), Action::Release);
    (written, connection.state())
}

#[test]
fn buffer_is_512_bytes() {
    assert_eq!(BUFFER_SIZE, 512);
}

#[test]
fn new_connection_is_active() {
    let connection = Connection::new(String::from("10.0.0.5:51000"));
    assert_eq!(connection.state(), SessionState::Active);
    assert_eq!(connection.remote(), "10.0.0.5:51000");
}

#[test]
fn handler_starts_by_reading() {
    let connection = Connection::new(String::from("10.0.0.5:51000"));
    assert_eq!(connection.start(), Action::Read(512));
    assert_eq!(connection.state(), SessionState::Active);
}

#[test]
fn ping_is_echoed_and_session_closes() {
    let mut connection = Connection::new(String::from("127.0.0.1:40001"));
    assert_eq!(connection.start(), Action::Read(512));
    let action = connection.step(Event::Received(b"ping".to_vec()));
    assert_eq!(action, Action::Write(vec![b'p', b'i', b'n', b'g']));
    assert_eq!(connection.state(), SessionState::Active);
    assert_eq!(connection.step(Event::Written), Action::Read(512));
    assert_eq!(connection.state(), SessionState::Active);
    assert_eq!(connection.step(Event::Received(Vec::new())), Action::Release);
    assert_eq!(connection.state(), SessionState::Closed);
    assert_eq!(connection.remote(), "127.0.0.1:40001");
}

#[test]
fn close_without_data_echoes_nothing() {
    let mut connection = Connection::new(String::from("127.0.0.1:40002"));
    assert_eq!(connection.step(Event::Received(Vec::new())), Action::Release);
    assert_eq!(connection.state(), SessionState::Closed);
    let (written, state) = echo_all(&[]);
    assert!(written.is_empty());
    assert_eq!(state, SessionState::Closed);
}

#[test]
fn read_failure_ends_session_with_diagnostic() {
    let mut connection = Connection::new(String::from("127.0.0.1:40003"));
    let action = connection.step(Event::ReadFailed(String::from("Connection reset by peer")));
    assert_eq!(
        action,
        Action::Abort(String::from("There was error in read: Connection reset by peer"))
    );
    assert_eq!(connection.state(), SessionState::Errored);
}

#[test]
fn read_failure_after_echo_ends_session() {
    let mut connection = Connection::new(String::from("127.0.0.1:40004"));
    assert_eq!(connection.step(Event::Received(vec![1, 2, 3])), Action::Write(vec![1, 2, 3]));
    assert_eq!(connection.step(Event::Written), Action::Read(512));
    let action = connection.step(Event::ReadFailed(String::from("reset")));
    assert_eq!(action, Action::Abort(String::from("There was error in read: reset")));
    assert_eq!(connection.state(), SessionState::Errored);
}

#[test]
fn write_failure_ends_session_with_diagnostic() {
    let mut connection = Connection::new(String::from("127.0.0.1:40005"));
    assert_eq!(connection.step(Event::Received(vec![7])), Action::Write(vec![7]));
    let action = connection.step(Event::WriteFailed(String::from("Broken pipe")));
    assert_eq!(action, Action::Abort(String::from("There was error in write: Broken pipe")));
    assert_eq!(connection.state(), SessionState::Errored);
}

#[test]
fn failure_with_empty_detail_keeps_the_context() {
    let mut connection = Connection::new(String::new());
    let action = connection.step(Event::WriteFailed(String::new()));
    assert_eq!(action, Action::Abort(String::from("There was error in write: ")));
    assert_eq!(connection.state(), SessionState::Errored);
    assert_eq!(connection.remote(), "");
}

#[test]
fn closed_session_stays_closed() {
    let mut connection = Connection::new(String::from("127.0.0.1:40006"));
    connection.step(Event::Received(Vec::new()));
    assert_eq!(connection.step(Event::Received(vec![1])), Action::Release);
    assert_eq!(connection.step(Event::Written), Action::Release);
    assert_eq!(connection.step(Event::ReadFailed(String::from("late"))), Action::Release);
    assert_eq!(connection.step(Event::WriteFailed(String::from("late"))), Action::Release);
    assert_eq!(connection.state(), SessionState::Closed);
}

#[test]
fn errored_session_stays_errored() {
    let mut connection = Connection::new(String::from("127.0.0.1:40007"));
    connection.step(Event::ReadFailed(String::from("reset")));
    assert_eq!(connection.step(Event::Received(vec![1])), Action::Release);
    assert_eq!(connection.step(Event::Received(Vec::new())), Action::Release);
    assert_eq!(connection.step(Event::Written), Action::Release);
    assert_eq!(connection.step(Event::WriteFailed(String::from("late"))), Action::Release);
    assert_eq!(connection.state(), SessionState::Errored);
}

#[test]
fn every_byte_value_comes_back() {
    let all: Vec<u8> = (0..=255u8).collect();
    let (written, state) = echo_all(&[all.clone()]);
    assert_eq!(written, vec![all]);
    assert_eq!(state, SessionState::Closed);
}

#[test]
fn full_buffer_is_echoed_as_one_chunk() {
    let chunk: Vec<u8> = (0..512usize).map(|i| (i % 251) as u8).collect();
    let (written, state) = echo_all(&[chunk.clone()]);
    assert_eq!(written.len(), 1);
    assert_eq!(written[0].len(), 512);
    assert_eq!(written[0], chunk);
    assert_eq!(state, SessionState::Closed);
}

#[test]
fn burst_over_the_buffer_comes_back_in_order() {
    let sent: Vec<u8> = (0..600usize).map(|i| (i % 253) as u8).collect();
    let reads = vec![sent[..512].to_vec(), sent[512..].to_vec()];
    let (written, state) = echo_all(&reads);
    assert_eq!(written.len(), 2);
    assert_eq!(written[0].len(), 512);
    assert_eq!(written[1].len(), 88);
    assert_eq!(written.concat(), sent);
    assert_eq!(state, SessionState::Closed);
}

#[test]
fn several_writes_are_echoed_chunk_for_chunk() {
    let reads = vec![b"hello ".to_vec(), b"echo".to_vec(), b" server".to_vec()];
    let (written, state) = echo_all(&reads);
    assert_eq!(written, reads);
    assert_eq!(written.concat(), b"hello echo server".to_vec());
    assert_eq!(state, SessionState::Closed);
}

#[test]
fn boundaries_of_reads_do_not_change_the_echo() {
    let merged = vec![b"hello echo".to_vec()];
    let split = vec![b"hel".to_vec(), b"lo e".to_vec(), b"cho".to_vec()];
    let (first, _) = echo_all(&merged);
    let (second, _) = echo_all(&split);
    assert_eq!(first.concat(), second.concat());
    assert_eq!(first.concat(), b"hello echo".to_vec());
}

#[test]
fn two_clients_hear_only_themselves() {
    let mut first = Connection::new(String::from("10.0.0.1:1000"));
    let mut second = Connection::new(String::from("10.0.0.2:2000"));
    let a = first.step(Event::Received(b"from a".to_vec()));
    let b = second.step(Event::Received(b"from b".to_vec()));
    assert_eq!(a, Action::Write(b"from a".to_vec()));
    assert_eq!(b, Action::Write(b"from b".to_vec()));
    assert_eq!(second.step(Event::Written), Action::Read(512));
    assert_eq!(first.step(Event::Written), Action::Read(512));
    assert_eq!(first.step(Event::Received(b"more a".to_vec())), Action::Write(b"more a".to_vec()));
    assert_eq!(second.step(Event::Received(Vec::new())), Action::Release);
    assert_eq!(first.state(), SessionState::Active);
    assert_eq!(second.state(), SessionState::Closed);
    assert_eq!(first.remote(), "10.0.0.1:1000");
    assert_eq!(second.remote(), "10.0.0.2:2000");
}

#[test]
fn reset_of_one_client_leaves_the_other_active() {
    let mut first = Connection::new(String::from("10.0.0.1:1000"));
    let mut second = Connection::new(String::from("10.0.0.2:2000"));
    assert_eq!(first.step(Event::Received(vec![1, 2])), Action::Write(vec![1, 2]));
    let failed = second.step(Event::ReadFailed(String::from("Connection reset by peer")));
    assert_eq!(
        failed,
        Action::Abort(String::from("There was error in read: Connection reset by peer"))
    );
    assert_eq!(second.state(), SessionState::Errored);
    assert_eq!(first.state(), SessionState::Active);
    assert_eq!(first.step(Event::Written), Action::Read(512));
    assert_eq!(first.step(Event::Received(vec![3])), Action::Write(vec![3]));
}

#[test]
fn ended_session_starts_with_release() {
    let mut closed = Connection::new(String::from("127.0.0.1:40008"));
    closed.step(Event::Received(Vec::new()));
    assert_eq!(closed.start(), Action::Release);
    let mut errored = Connection::new(String::from("127.0.0.1:40009"));
    errored.step(Event::WriteFailed(String::from("Broken pipe")));
    assert_eq!(errored.start(), Action::Release);
}
