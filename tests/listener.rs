use striczkof_io::address::{Address, IpAddress};
use striczkof_io::connection::{CloseReason, ConnectionStage};
use striczkof_io::listener::{AcceptLoop, AcceptOutcome, Listener, LoopAction};

/// Stands in for a bound socket: a number that identifies it.
type Socket = u32;
/// Stands in for a shared TLS acceptor.
type Acceptor = String;

/// Drives an accept loop over a scripted sequence of wake-ups and returns the
/// actions it chose, ending with the first `Stop`.
fn drive(task: &mut AcceptLoop<Socket, Acceptor>, events: &[(bool, Option<AcceptOutcome>)]) -> Vec<LoopAction> {
    let mut actions = Vec::new();
    for (cancelled, outcome) in events {
        let action = task.next_action(*cancelled, *outcome);
        actions.push(action);
        if action == LoopAction::Stop {
            break;
        }
    }
    actions
}

#[test]
fn run_single_listener() {
    let socket = Address::v4(127, 0, 0, 1, 8080);
    let listener: Listener<Socket, Acceptor> = Listener::new(socket, 7);
    let (running, mut task) = listener.start();
    let actions = drive(
        &mut task,
        &[
            (false, Some(AcceptOutcome::Accepted)),
            (false, None),
            (true, None),
        ],
    );
    assert_eq!(actions, vec![LoopAction::DispatchPlain, LoopAction::Resume, LoopAction::Stop]);
    let listener = running.stop(task);
    assert_eq!(*listener.bound_socket(), socket);
    assert_eq!(*listener.socket(), 7);
    assert!(!listener.over_tls());
}

#[test]
fn ipv4_address_bits() {
    let a = Address::v4(127, 0, 0, 1, 8080);
    assert_eq!(a.ip, IpAddress::V4(0x7f00_0001));
    assert_eq!(a.port, 8080);
    assert!(a.is_ipv4());
    let b = Address::v4(255, 254, 253, 252, 0);
    assert_eq!(b.ip, IpAddress::V4(0xfffe_fdfc));
    let c = Address::new(IpAddress::V6(1), 443);
    assert!(!c.is_ipv4());
    assert_eq!(c.port, 443);
}

#[test]
fn attaching_tls_keeps_socket_and_address() {
    let addr = Address::v4(0, 0, 0, 0, 443);
    let plain: Listener<Socket, Acceptor> = Listener::new(addr, 3);
    assert!(!plain.over_tls());
    assert_eq!(*plain.tls_acceptor(), None);
    let tls = plain.with_tls_acceptor("acceptor".to_string());
    assert!(tls.over_tls());
    assert_eq!(*tls.socket(), 3);
    assert_eq!(*tls.bound_socket(), addr);
    assert_eq!(tls.tls_acceptor().as_deref(), Some("acceptor"));
}

#[test]
fn cancellation_wins_over_simultaneous_connection() {
    let listener: Listener<Socket, Acceptor> = Listener::new(Address::v4(127, 0, 0, 1, 9000), 1);
    let (_running, mut task) = listener.start();
    // A connection and the cancellation are both ready in the same poll: the
    // connection is dropped, not dispatched.
    assert_eq!(task.next_action(true, Some(AcceptOutcome::Accepted)), LoopAction::Stop);
    assert!(task.is_stopped());
    // Cancellation cannot be undone.
    assert_eq!(task.next_action(false, Some(AcceptOutcome::Accepted)), LoopAction::Stop);
    assert_eq!(task.next_action(false, None), LoopAction::Stop);
}

#[test]
fn cancellation_with_no_traffic_stops_at_once() {
    let listener: Listener<Socket, Acceptor> = Listener::new(Address::v4(127, 0, 0, 1, 9001), 1);
    let (_running, mut task) = listener.start();
    assert!(!task.is_stopped());
    assert_eq!(task.next_action(true, None), LoopAction::Stop);
    assert!(task.is_stopped());
}

#[test]
fn accept_error_does_not_end_the_loop() {
    let listener: Listener<Socket, Acceptor> = Listener::new(Address::v4(127, 0, 0, 1, 9002), 1);
    let (_running, mut task) = listener.start();
    let actions = drive(
        &mut task,
        &[
            (false, Some(AcceptOutcome::Failed)),
            (false, Some(AcceptOutcome::Failed)),
            (false, Some(AcceptOutcome::Accepted)),
            (true, Some(AcceptOutcome::Failed)),
        ],
    );
    assert_eq!(
        actions,
        vec![
            LoopAction::LogAcceptError,
            LoopAction::LogAcceptError,
            LoopAction::DispatchPlain,
            LoopAction::Stop
        ]
    );
}

#[test]
fn restart_resumes_on_the_same_socket() {
    let addr = Address::v4(127, 0, 0, 1, 8443);
    let listener: Listener<Socket, Acceptor> =
        Listener::new(addr, 42).with_tls_acceptor("shared".to_string());
    let (running, mut task) = listener.start();
    assert!(running.over_tls());
    assert_eq!(*running.bound_socket(), addr);
    assert_eq!(task.next_action(false, Some(AcceptOutcome::Accepted)), LoopAction::DispatchTls);
    assert_eq!(task.next_action(true, None), LoopAction::Stop);
    let idle = running.stop(task);
    assert_eq!(*idle.socket(), 42);
    assert_eq!(*idle.bound_socket(), addr);
    assert_eq!(idle.tls_acceptor().as_deref(), Some("shared"));
    // Started again, the loop is live and serves on the very same socket.
    let (running, mut task) = idle.start();
    assert!(!task.is_stopped());
    assert_eq!(*task.socket(), 42);
    assert_eq!(task.tls_acceptor().as_deref(), Some("shared"));
    assert_eq!(task.next_action(false, Some(AcceptOutcome::Accepted)), LoopAction::DispatchTls);
    assert_eq!(task.next_action(true, None), LoopAction::Stop);
    let again = running.stop(task);
    assert_eq!(*again.socket(), 42);
}

#[test]
fn handshake_failure_closes_only_that_connection() {
    let listener: Listener<Socket, Acceptor> =
        Listener::new(Address::v4(127, 0, 0, 1, 8443), 5).with_tls_acceptor("shared".to_string());
    let (_running, mut task) = listener.start();
    assert_eq!(task.next_action(false, Some(AcceptOutcome::Accepted)), LoopAction::DispatchTls);
    let first = ConnectionStage::accepted(true);
    assert_eq!(first, ConnectionStage::Handshaking);
    let first = first.on_handshake(false);
    assert_eq!(first, ConnectionStage::Closed(CloseReason::HandshakeFailed));
    assert!(first.is_closed());
    // The listener keeps accepting, and the next connection is served.
    assert_eq!(task.next_action(false, Some(AcceptOutcome::Accepted)), LoopAction::DispatchTls);
    let second = ConnectionStage::accepted(true).on_handshake(true);
    assert!(second.is_serving());
    assert_eq!(second.on_served(true), ConnectionStage::Closed(CloseReason::Served));
    assert!(!task.is_stopped());
}

#[test]
fn plain_connection_is_served_without_handshake() {
    let stage = ConnectionStage::accepted(false);
    assert_eq!(stage, ConnectionStage::Serving);
    // A handshake result outside the handshake changes nothing.
    assert_eq!(stage.on_handshake(false), ConnectionStage::Serving);
    assert_eq!(stage.on_served(false), ConnectionStage::Closed(CloseReason::ServeFailed));
    let closed = ConnectionStage::Closed(CloseReason::Served);
    assert_eq!(closed.on_served(false), closed);
    assert!(!closed.is_serving());
}
