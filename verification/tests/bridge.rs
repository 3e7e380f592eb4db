use pigeons::bridge::{
    bridge_connection, copy_both, copy_stdio, prepare_pigeon, Bridge, BridgeAction, BridgeKind,
    BridgeNext, BridgeState, BridgeStep, Copier, CopyNext, CopyStep, Direction, FirstEnd,
    ListenerAction, ListenerEvent, COPY_BUFFER,
};
use std::io;
use std::sync::{Arc, Mutex};
use std::time::Duration;
use tokio::io::{AsyncRead, AsyncReadExt, AsyncWrite, AsyncWriteExt};
use tokio::sync::mpsc;

type Outcome = Result<usize, &'static str>;

fn next(copier: &mut Copier, outcome: Outcome) -> CopyNext<&'static str> {
    copier.advance(outcome)
}

async fn drive<R, W>(
    bridge: Arc<Mutex<Bridge>>,
    direction: Direction,
    mut reader: R,
    mut writer: W,
    over: mpsc::Sender<io::Result<(u64, u64)>>,
) where
    R: AsyncRead + Unpin,
    W: AsyncWrite + Unpin,
{
    let mut buf = [0u8; COPY_BUFFER];
    loop {
        let step = bridge.lock().unwrap().step(direction);
        let outcome = match step {
            CopyStep::Read => reader.read(&mut buf).await,
            CopyStep::Write(n) => writer.write_all(&buf[..n]).await.map(|()| n),
            CopyStep::Flush => writer.flush().await.map(|()| 0),
            CopyStep::Shutdown => writer.shutdown().await.map(|()| 0),
        };
        let action = bridge.lock().unwrap().advance(direction, outcome);
        match action {
            BridgeAction::Take(_) => {}
            BridgeAction::Wait => return,
            BridgeAction::Over(outcome) => {
                over.send(outcome).await.unwrap();
                return;
            }
        }
    }
}

async fn bridge<AR, AW, BR, BW>(
    kind: BridgeKind,
    local: (AR, AW),
    remote: (BR, BW),
) -> io::Result<(u64, u64)>
where
    AR: AsyncRead + Unpin + Send + 'static,
    AW: AsyncWrite + Unpin + Send + 'static,
    BR: AsyncRead + Unpin + Send + 'static,
    BW: AsyncWrite + Unpin + Send + 'static,
{
    let bridge = Arc::new(Mutex::new(Bridge::start(kind)));
    let (over, mut outcomes) = mpsc::channel(1);
    let out = drive(bridge.clone(), Direction::LocalToRemote, local.0, remote.1, over.clone());
    let back = drive(bridge, Direction::RemoteToLocal, remote.0, local.1, over);
    let (out, back) = (tokio::spawn(out), tokio::spawn(back));
    let outcome = outcomes.recv().await.unwrap();
    out.abort();
    back.abort();
    outcome
}

fn run<F: std::future::Future>(future: F) -> F::Output {
    let runtime = tokio::runtime::Builder::new_current_thread().enable_all().build().unwrap();
    runtime.block_on(async { tokio::time::timeout(Duration::from_secs(10), future).await.unwrap() })
}

#[test]
fn stdio_local_eof_drains_delayed_remote_output() {
    run(async {
        let (mut local_input, bridge_input) = tokio::io::duplex(64);
        let (bridge_output, mut local_output) = tokio::io::duplex(64);
        let (bridge_send, mut remote_input) = tokio::io::duplex(64);
        let (mut remote_output, bridge_receive) = tokio::io::duplex(64);

        let bridge = tokio::spawn(bridge(
            BridgeKind::Stdio,
            (bridge_input, bridge_output),
            (bridge_receive, bridge_send),
        ));

        local_input.write_all(b"request").await.unwrap();
        local_input.shutdown().await.unwrap();

        let mut request = Vec::new();
        remote_input.read_to_end(&mut request).await.unwrap();
        assert_eq!(request, b"request");

        remote_output.write_all(b"delayed output").await.unwrap();
        remote_output.shutdown().await.unwrap();

        assert_eq!(bridge.await.unwrap().unwrap(), (7, 14));
        let mut output = Vec::new();
        local_output.read_to_end(&mut output).await.unwrap();
        assert_eq!(output, b"delayed output");
    });
}

#[test]
fn stdio_ends_on_a_remote_close_while_the_input_is_open() {
    run(async {
        let (local_input, bridge_input) = tokio::io::duplex(64);
        let (bridge_output, mut local_output) = tokio::io::duplex(64);
        let (bridge_send, remote_input) = tokio::io::duplex(64);
        let (mut remote_output, bridge_receive) = tokio::io::duplex(64);

        remote_output.write_all(b"bye").await.unwrap();
        remote_output.shutdown().await.unwrap();
        let outcome = bridge(
            BridgeKind::Stdio,
            (bridge_input, bridge_output),
            (bridge_receive, bridge_send),
        )
        .await;

        assert_eq!(outcome.unwrap(), (0, 3));
        let mut output = Vec::new();
        local_output.read_to_end(&mut output).await.unwrap();
        assert_eq!(output, b"bye");
        drop(local_input);
        drop(remote_input);
    });
}

#[test]
fn a_connection_waits_for_both_ends() {
    run(async {
        let (mut local_input, bridge_input) = tokio::io::duplex(64);
        let (bridge_output, mut local_output) = tokio::io::duplex(64);
        let (bridge_send, mut remote_input) = tokio::io::duplex(64);
        let (mut remote_output, bridge_receive) = tokio::io::duplex(64);

        let bridge = tokio::spawn(bridge(
            BridgeKind::Connection,
            (bridge_input, bridge_output),
            (bridge_receive, bridge_send),
        ));

        remote_output.write_all(b"banner").await.unwrap();
        remote_output.shutdown().await.unwrap();
        let mut output = Vec::new();
        local_output.read_to_end(&mut output).await.unwrap();
        assert_eq!(output, b"banner");

        // Longer than both the buffer of the copy and that of the stream.
        let long = vec![7u8; 3 * COPY_BUFFER + 5];
        let sent = long.clone();
        let writer = tokio::spawn(async move {
            local_input.write_all(&sent).await.unwrap();
            local_input.shutdown().await.unwrap();
        });
        let mut request = Vec::new();
        remote_input.read_to_end(&mut request).await.unwrap();
        assert_eq!(request, long);
        writer.await.unwrap();

        assert_eq!(bridge.await.unwrap().unwrap(), (3 * 8192 + 5, 6));
    });
}

#[test]
fn every_write_is_flushed_before_the_next_read() {
    let mut copier = Copier::copy_flush();
    assert_eq!(copier.step, CopyStep::Read);
    for (n, total) in [(5usize, 5u64), (8192, 8197), (1, 8198)] {
        assert_eq!(next(&mut copier, Ok(n)), CopyNext::Take(CopyStep::Write(n)));
        assert_eq!(next(&mut copier, Ok(0)), CopyNext::Take(CopyStep::Flush));
        assert_eq!(next(&mut copier, Ok(0)), CopyNext::Take(CopyStep::Read));
        assert_eq!(copier.total, total);
    }
    assert_eq!(next(&mut copier, Ok(0)), CopyNext::Finished(Ok(8198)));
}

#[test]
fn the_writer_is_shut_down_at_the_end_if_asked_for() {
    let mut copier = Copier::copy_flush_and_shutdown();
    assert_eq!(next(&mut copier, Ok(3)), CopyNext::Take(CopyStep::Write(3)));
    assert_eq!(next(&mut copier, Ok(3)), CopyNext::Take(CopyStep::Flush));
    assert_eq!(next(&mut copier, Ok(0)), CopyNext::Take(CopyStep::Read));
    assert_eq!(next(&mut copier, Ok(0)), CopyNext::Take(CopyStep::Shutdown));
    assert_eq!(next(&mut copier, Ok(0)), CopyNext::Finished(Ok(3)));
}

#[test]
fn an_empty_reader_copies_nothing() {
    let mut copier = Copier::copy_flush();
    assert_eq!(next(&mut copier, Ok(0)), CopyNext::Finished(Ok(0)));
}

#[test]
fn a_failed_step_ends_the_copy_with_its_error() {
    let outcomes: [Outcome; 4] = [Ok(4), Ok(4), Ok(0), Ok(0)];
    for failing in 0..4 {
        let mut copier = Copier::copy_flush_and_shutdown();
        for outcome in &outcomes[..failing] {
            assert!(matches!(next(&mut copier, *outcome), CopyNext::Take(_)));
        }
        let before = copier;
        assert_eq!(next(&mut copier, Err("broken")), CopyNext::Finished(Err("broken")));
        assert_eq!(copier, before);
    }
}

#[test]
fn a_connection_has_one_outcome_for_either_order() {
    let local = copy_both(FirstEnd::<&str>::LocalToRemote(Ok(7)));
    assert_eq!(local, BridgeNext::AwaitRemoteToLocal { local_to_remote: 7 });
    assert_eq!(local.resume(Ok(14)), Ok((7, 14)));
    let remote = copy_both(FirstEnd::<&str>::RemoteToLocal(Ok(14)));
    assert_eq!(remote, BridgeNext::AwaitLocalToRemote { remote_to_local: 14 });
    assert_eq!(remote.resume(Ok(7)), Ok((7, 14)));
}

#[test]
fn a_connection_fails_with_either_direction() {
    let local = copy_both(FirstEnd::LocalToRemote(Err("out")));
    assert_eq!(local, BridgeNext::Done(Err("out")));
    let remote = copy_both(FirstEnd::RemoteToLocal(Err("in")));
    assert_eq!(remote, BridgeNext::Done(Err("in")));
    assert_eq!(copy_both(FirstEnd::LocalToRemote(Ok(1))).resume(Err("in")), Err("in"));
    assert_eq!(copy_both(FirstEnd::RemoteToLocal(Ok(1))).resume(Err("out")), Err("out"));
}

#[test]
fn stdio_treats_its_two_ends_differently() {
    let local = copy_stdio(FirstEnd::<&str>::LocalToRemote(Ok(7)));
    assert_eq!(local, BridgeNext::AwaitRemoteToLocal { local_to_remote: 7 });
    assert_eq!(local.resume(Ok(14)), Ok((7, 14)));
    let remote = copy_stdio(FirstEnd::<&str>::RemoteToLocal(Ok(14)));
    assert_eq!(remote, BridgeNext::Done(Ok((0, 14))));
    assert_eq!(remote.resume(Ok(7)), Ok((0, 14)));
    assert_eq!(copy_stdio(FirstEnd::LocalToRemote(Err("out"))), BridgeNext::Done(Err("out")));
    assert_eq!(copy_stdio(FirstEnd::RemoteToLocal(Err("in"))), BridgeNext::Done(Err("in")));
    assert_eq!(copy_stdio(FirstEnd::LocalToRemote(Ok(1))).resume(Err("in")), Err("in"));
}

#[test]
fn a_connection_sends_the_preface_before_it_copies() {
    assert_eq!(
        bridge_connection(),
        vec![
            BridgeStep::SetNoDelay,
            BridgeStep::Connect,
            BridgeStep::OpenStream,
            BridgeStep::WritePreface,
            BridgeStep::FlushPreface,
            BridgeStep::CopyBoth,
        ]
    );
}

#[test]
fn the_listener_stops_only_when_it_cannot_accept() {
    type Event = ListenerEvent<u8, &'static str>;
    assert_eq!(prepare_pigeon(Event::Accepted(4)), ListenerAction::Bridge(4));
    assert_eq!(prepare_pigeon(Event::Lost("lost")), ListenerAction::Report("lost"));
    assert_eq!(prepare_pigeon(Event::Delivered), ListenerAction::Continue);
    assert_eq!(prepare_pigeon(Event::AcceptFailed("full")), ListenerAction::Stop("full"));
}

fn go(bridge: &mut Bridge, direction: Direction, outcome: Outcome) -> BridgeAction<&'static str> {
    assert!(bridge.accepts(direction, &outcome));
    bridge.advance(direction, outcome)
}

fn end(bridge: &mut Bridge, direction: Direction, n: usize) -> BridgeAction<&'static str> {
    for (outcome, step) in [
        (Ok(n), CopyStep::Write(n)),
        (Ok(n), CopyStep::Flush),
        (Ok(0), CopyStep::Read),
        (Ok(0), CopyStep::Shutdown),
    ] {
        assert_eq!(go(bridge, direction, outcome), BridgeAction::Take(step));
        assert_eq!(bridge.step(direction), step);
    }
    go(bridge, direction, Ok(0))
}

#[test]
fn both_directions_of_a_bridge_shut_their_writers_down() {
    for kind in [BridgeKind::Connection, BridgeKind::Stdio] {
        let bridge = Bridge::start(kind);
        assert_eq!(bridge.local_to_remote, Copier::copy_flush_and_shutdown());
        assert_eq!(bridge.remote_to_local, Copier::copy_flush_and_shutdown());
        assert_eq!(bridge.state, BridgeState::Running);
        assert_eq!(bridge.step(Direction::LocalToRemote), CopyStep::Read);
        assert_eq!(bridge.step(Direction::RemoteToLocal), CopyStep::Read);
    }
}

#[test]
fn a_direction_goes_on_as_it_is_after_the_other_has_ended() {
    for kind in [BridgeKind::Connection, BridgeKind::Stdio] {
        let mut bridge = Bridge::start(kind);
        assert_eq!(
            go(&mut bridge, Direction::RemoteToLocal, Ok(9)),
            BridgeAction::Take(CopyStep::Write(9))
        );
        let remote = bridge.remote_to_local;
        assert_eq!(end(&mut bridge, Direction::LocalToRemote, 7), BridgeAction::Wait);
        assert_eq!(bridge.remote_to_local, remote);
        let waiting: Outcome = Ok(1);
        assert!(!bridge.accepts(Direction::LocalToRemote, &waiting));
        go(&mut bridge, Direction::RemoteToLocal, Ok(9));
        go(&mut bridge, Direction::RemoteToLocal, Ok(0));
        assert_eq!(
            end(&mut bridge, Direction::RemoteToLocal, 5),
            BridgeAction::Over(Ok((7, 14)))
        );
        assert!(!bridge.accepts(Direction::RemoteToLocal, &waiting));
    }
}

#[test]
fn a_remote_end_is_final_for_stdio_alone() {
    let mut stdio = Bridge::start(BridgeKind::Stdio);
    go(&mut stdio, Direction::LocalToRemote, Ok(4));
    assert_eq!(end(&mut stdio, Direction::RemoteToLocal, 14), BridgeAction::Over(Ok((0, 14))));
    let mut connection = Bridge::start(BridgeKind::Connection);
    assert_eq!(end(&mut connection, Direction::RemoteToLocal, 14), BridgeAction::Wait);
    assert_eq!(connection.state, BridgeState::AwaitLocalToRemote { remote_to_local: 14 });
    assert_eq!(end(&mut connection, Direction::LocalToRemote, 7), BridgeAction::Over(Ok((7, 14))));
}

#[test]
fn a_bridge_stops_at_the_first_error() {
    for kind in [BridgeKind::Connection, BridgeKind::Stdio] {
        for direction in [Direction::LocalToRemote, Direction::RemoteToLocal] {
            let mut bridge = Bridge::start(kind);
            go(&mut bridge, direction, Ok(4));
            let over = go(&mut bridge, direction, Err("broken"));
            assert_eq!(over, BridgeAction::Over(Err("broken")));
            assert_eq!(bridge.state, BridgeState::Over);
        }
        let mut bridge = Bridge::start(kind);
        assert_eq!(end(&mut bridge, Direction::LocalToRemote, 7), BridgeAction::Wait);
        let over = go(&mut bridge, Direction::RemoteToLocal, Err("broken"));
        assert_eq!(over, BridgeAction::Over(Err("broken")));
    }
}

#[test]
fn a_full_count_is_not_accepted() {
    let mut bridge = Bridge::start(BridgeKind::Connection);
    bridge.local_to_remote =
        Copier { step: CopyStep::Flush, pending: 2, total: u64::MAX - 1, shut_down: true };
    let flushed: Outcome = Ok(0);
    assert!(!bridge.accepts(Direction::LocalToRemote, &flushed));
    assert!(bridge.accepts(Direction::LocalToRemote, &Err::<usize, ()>(())));
    bridge.local_to_remote.pending = 1;
    assert!(bridge.accepts(Direction::LocalToRemote, &flushed));
}
