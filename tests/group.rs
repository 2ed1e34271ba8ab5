use striczkof_io::address::Address;
use striczkof_io::group::{BindError, BindFailure, GroupError, ListenerGroup, TaskFault};
use striczkof_io::listener::{AcceptOutcome, Listener, LoopAction};

type Socket = u32;
type Acceptor = String;
type Group = ListenerGroup<Socket, Acceptor>;

fn local(port: u16) -> Address {
    Address::v4(127, 0, 0, 1, port)
}

/// Runs every member through a short accept loop until cancellation, as the
/// member tasks of a started group do, and hands back what each task returns.
fn run_until_cancelled(members: Vec<Listener<Socket, Acceptor>>) -> Vec<Result<Listener<Socket, Acceptor>, TaskFault>> {
    let mut outcomes = Vec::new();
    for member in members {
        let (running, mut task) = member.start();
        let _ = task.next_action(false, Some(AcceptOutcome::Accepted));
        assert_eq!(task.next_action(true, None), LoopAction::Stop);
        outcomes.push(Ok(running.stop(task)));
    }
    outcomes
}

#[test]
fn run_multiple_listeners() {
    let attempts: Vec<(Address, Result<Socket, BindError>)> =
        (0..5).map(|i| (local(0), Ok(100 + i))).collect();
    let (listeners, failures): (Group, Vec<BindFailure>) = ListenerGroup::bind_all(attempts);
    assert!(failures.is_empty());
    assert_eq!(listeners.len(), 5);
    let (running, members) = listeners.start();
    assert_eq!(running.started(), 5);
    let outcomes = run_until_cancelled(members);
    let report = running.stop(outcomes);
    assert!(report.is_clean());
    assert_eq!(report.group.len(), 5);
    assert_eq!(report.started, 5);
}

#[test]
fn partial_bind_keeps_the_bound_addresses() {
    let attempts: Vec<(Address, Result<Socket, BindError>)> = vec![
        (local(8001), Ok(1)),
        (local(8002), Err(BindError::AddressInUse)),
        (local(8003), Ok(3)),
        (local(8004), Err(BindError::PermissionDenied)),
        (local(8005), Ok(5)),
    ];
    let (group, failures): (Group, Vec<BindFailure>) = ListenerGroup::bind_all(attempts);
    assert_eq!(group.len(), 3);
    assert!(!group.over_tls());
    assert_eq!(*group.get(0).bound_socket(), local(8001));
    assert_eq!(*group.get(1).socket(), 3);
    assert_eq!(*group.get(2).bound_socket(), local(8005));
    assert_eq!(
        failures,
        vec![
            BindFailure { address: local(8002), error: BindError::AddressInUse },
            BindFailure { address: local(8004), error: BindError::PermissionDenied },
        ]
    );
}

#[test]
fn no_address_bound_gives_an_empty_group() {
    let attempts: Vec<(Address, Result<Socket, BindError>)> = vec![
        (local(1), Err(BindError::InvalidAddress)),
        (local(2), Err(BindError::Other)),
    ];
    let (group, failures): (Group, Vec<BindFailure>) = ListenerGroup::bind_all(attempts);
    assert!(group.is_empty());
    assert_eq!(failures.len(), 2);
    let (group, failures): (Group, Vec<BindFailure>) = ListenerGroup::bind_all(Vec::new());
    assert!(group.is_empty());
    assert!(failures.is_empty());
    assert!(ListenerGroup::<Socket, Acceptor>::new().is_empty());
}

#[test]
fn group_tls_acceptor_reaches_every_member() {
    let attempts: Vec<(Address, Result<Socket, BindError>)> =
        vec![(local(1), Ok(1)), (local(2), Ok(2)), (local(3), Ok(3))];
    let (group, _): (Group, Vec<BindFailure>) = ListenerGroup::bind_all(attempts);
    let group = group.with_tls_acceptor("shared".to_string());
    assert!(group.over_tls());
    assert_eq!(group.len(), 3);
    for i in 0..3 {
        let member = group.get(i);
        assert!(member.over_tls());
        assert_eq!(member.tls_acceptor().as_deref(), Some("shared"));
        assert_eq!(*member.socket(), (i + 1) as u32);
    }
}

#[test]
fn mixing_plain_and_tls_members_is_refused() {
    let plain: Listener<Socket, Acceptor> = Listener::new(local(1), 1);
    let tls: Listener<Socket, Acceptor> = Listener::new(local(2), 2).with_tls_acceptor("a".to_string());
    let mixed = ListenerGroup::from_listeners(vec![plain, tls]);
    assert_eq!(mixed.err(), Some(GroupError::MixedTls));

    let a: Listener<Socket, Acceptor> = Listener::new(local(1), 1).with_tls_acceptor("a".to_string());
    let b: Listener<Socket, Acceptor> = Listener::new(local(2), 2).with_tls_acceptor("a".to_string());
    let group = ListenerGroup::from_listeners(vec![a, b]).ok().unwrap();
    assert!(group.over_tls());
    assert_eq!(group.len(), 2);

    let empty = ListenerGroup::<Socket, Acceptor>::from_listeners(Vec::new()).ok().unwrap();
    assert!(empty.is_empty());
    assert!(!empty.over_tls());
}

#[test]
fn group_stop_records_faults_and_recovers_the_rest() {
    let attempts: Vec<(Address, Result<Socket, BindError>)> =
        (0..4).map(|i| (local(9000 + i as u16), Ok(i))).collect();
    let (group, _): (Group, Vec<BindFailure>) = ListenerGroup::bind_all(attempts);
    let (running, members) = group.start();
    let mut outcomes = run_until_cancelled(members);
    outcomes[1] = Err(TaskFault::Panicked);
    outcomes.push(Err(TaskFault::Aborted));
    let report = running.stop(outcomes);
    assert!(!report.is_clean());
    assert_eq!(report.group.len(), 3);
    assert_eq!(report.faults, vec![TaskFault::Panicked, TaskFault::Aborted]);
    assert_eq!(*report.group.get(0).socket(), 0);
    assert_eq!(*report.group.get(1).socket(), 2);
    assert_eq!(*report.group.get(2).socket(), 3);
}

#[test]
fn group_stop_refuses_a_listener_of_the_other_kind() {
    let attempts: Vec<(Address, Result<Socket, BindError>)> = vec![(local(1), Ok(1)), (local(2), Ok(2))];
    let (group, _): (Group, Vec<BindFailure>) = ListenerGroup::bind_all(attempts);
    let (running, members) = group.start();
    assert!(!running.over_tls());
    let mut outcomes = run_until_cancelled(members);
    let stray: Listener<Socket, Acceptor> = Listener::new(local(3), 3).with_tls_acceptor("x".to_string());
    outcomes.push(Ok(stray));
    let report = running.stop(outcomes);
    assert_eq!(report.group.len(), 2);
    assert!(!report.group.over_tls());
    assert_eq!(report.faults, vec![TaskFault::Misclassified]);
}

#[test]
fn tls_group_round_trip_keeps_classification() {
    let attempts: Vec<(Address, Result<Socket, BindError>)> =
        (0..5).map(|i| (local(0), Ok(i))).collect();
    let (group, _): (Group, Vec<BindFailure>) = ListenerGroup::bind_all(attempts);
    let group = group.with_tls_acceptor("shared".to_string());
    let (running, members) = group.start();
    assert!(running.over_tls());
    let report = running.stop(run_until_cancelled(members));
    assert!(report.is_clean());
    assert!(report.group.over_tls());
    assert_eq!(report.group.len(), 5);
    // The recovered group starts again.
    let (running, members) = report.group.start();
    assert_eq!(running.started(), 5);
    assert_eq!(members.len(), 5);
}
