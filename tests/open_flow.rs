use tcp_client::{
    resolve_result, Client, ConnectKind, EnvCall, EnvKind, Environment, OpenKind, Report,
    ResolveKind, Socket, SocketAddress, Stage, Step, Target, Unwind, FAMILY_INET, FAMILY_INET6,
    HOST_NOT_FOUND, NO_DATA,
};

fn localhost(port: u16) -> SocketAddress {
    SocketAddress::V4([127, 0, 0, 1], port)
}

#[test]
fn client_new_keeps_host_and_port() {
    let c = Client::new("localhost", 9);
    match c.target() {
        Target::Host(h, p) => {
            assert_eq!(h, "localhost");
            assert_eq!(*p, 9);
        }
        Target::Address(_) => panic!("expected a host target"),
    }
}

#[test]
fn open_starts_at_start() {
    let o = Client::new("example.org", 80).open();
    assert_eq!(o.stage(), Stage::Start);
    let o2 = Socket::open(Client::from_address(localhost(80)));
    assert_eq!(o2.stage(), Stage::Start);
}

#[test]
fn open_by_host_succeeds_and_close_tears_down() {
    let mut env = Environment::new();
    let mut o = Client::new("localhost", 7).open();
    assert!(matches!(o.advance(&mut env, Report::Begin), Step::Startup));
    assert_eq!(env.count(), 0);
    match o.advance(&mut env, Report::Started(Ok(()))) {
        Step::Resolve(h) => assert_eq!(h, "localhost"),
        s => panic!("unexpected step {:?}", s),
    }
    assert_eq!(env.count(), 1);
    let step = o.advance(&mut env, Report::Resolved(Ok(vec![[127, 0, 0, 1], [10, 0, 0, 2]])));
    assert!(matches!(step, Step::Allocate(f) if f == FAMILY_INET));
    assert_eq!(o.stage(), Stage::Allocating(localhost(7)));
    match o.advance(&mut env, Report::Allocated(Ok(55))) {
        Step::Connect(h, rec) => {
            assert_eq!(h, 55);
            assert_eq!(rec, vec![2, 0, 0, 7, 127, 0, 0, 1, 0, 0, 0, 0, 0, 0, 0, 0]);
        }
        s => panic!("unexpected step {:?}", s),
    }
    let sock = match o.advance(&mut env, Report::Connected(Ok(()))) {
        Step::Ready(s) => s,
        s => panic!("unexpected step {:?}", s),
    };
    assert_eq!(sock.handle(), 55);
    assert_eq!(env.count(), 1);
    assert_eq!(o.stage(), Stage::Finished);
    let closing = sock.close(&mut env);
    assert_eq!(closing.handle, 55);
    assert!(closing.teardown);
    assert_eq!(env.count(), 0);
}

#[test]
fn closed_port_fails_with_connect_failed_and_keeps_count() {
    let mut env = Environment::new();
    let mut o = Client::new("localhost", 9).open();
    assert!(matches!(o.advance(&mut env, Report::Begin), Step::Startup));
    o.advance(&mut env, Report::Started(Ok(())));
    o.advance(&mut env, Report::Resolved(Ok(vec![[127, 0, 0, 1]])));
    o.advance(&mut env, Report::Allocated(Ok(3)));
    match o.advance(&mut env, Report::Connected(Err(10061))) {
        Step::Failed(u) => assert_eq!(
            u,
            Unwind {
                close: Some(3),
                teardown: true,
                error: OpenKind::Connect(ConnectKind::ConnectFailed(10061)),
            }
        ),
        s => panic!("unexpected step {:?}", s),
    }
    assert_eq!(env.count(), 0);
    assert_eq!(o.stage(), Stage::Finished);
}

#[test]
fn failure_with_other_reservation_keeps_subsystem_up() {
    let mut env = Environment::new();
    assert_eq!(env.acquire(Ok(())), Ok(()));
    let mut o = Client::from_address(localhost(9)).open();
    assert!(matches!(o.advance(&mut env, Report::Begin), Step::Allocate(f) if f == FAMILY_INET));
    assert_eq!(env.count(), 2);
    match o.advance(&mut env, Report::Allocated(Err(10024))) {
        Step::Failed(u) => assert_eq!(
            u,
            Unwind {
                close: None,
                teardown: false,
                error: OpenKind::Connect(ConnectKind::AllocationFailed(10024)),
            }
        ),
        s => panic!("unexpected step {:?}", s),
    }
    assert_eq!(env.count(), 1);
}

#[test]
fn startup_failure_takes_no_reservation() {
    let mut env = Environment::new();
    let mut o = Client::new("localhost", 80).open();
    o.advance(&mut env, Report::Begin);
    match o.advance(&mut env, Report::Started(Err(10091))) {
        Step::Failed(u) => assert_eq!(
            u,
            Unwind { close: None, teardown: false, error: OpenKind::Env(EnvKind::StartupFailed(10091)) }
        ),
        s => panic!("unexpected step {:?}", s),
    }
    assert_eq!(env.count(), 0);
    assert!(!env.is_active());
    // a later acquire tries startup again
    assert_eq!(env.acquire_call(), EnvCall::Startup);
}

#[test]
fn unknown_host_fails_with_not_found() {
    let mut env = Environment::new();
    let mut o = Client::new("no-such-host.invalid", 80).open();
    o.advance(&mut env, Report::Begin);
    o.advance(&mut env, Report::Started(Ok(())));
    match o.advance(&mut env, Report::Resolved(Err(HOST_NOT_FOUND))) {
        Step::Failed(u) => assert_eq!(
            u,
            Unwind { close: None, teardown: true, error: OpenKind::Resolve(ResolveKind::NotFound) }
        ),
        s => panic!("unexpected step {:?}", s),
    }
    assert_eq!(env.count(), 0);
}

#[test]
fn sequential_opens_each_start_and_tear_down_once() {
    let mut env = Environment::new();
    for round in 0..2u16 {
        let mut o = Client::from_address(localhost(1000 + round)).open();
        let mut startups = 0;
        let mut step = o.advance(&mut env, Report::Begin);
        let sock = loop {
            step = match step {
                Step::Startup => {
                    startups += 1;
                    o.advance(&mut env, Report::Started(Ok(())))
                }
                Step::Allocate(_) => o.advance(&mut env, Report::Allocated(Ok(40 + round as usize))),
                Step::Connect(_, _) => o.advance(&mut env, Report::Connected(Ok(()))),
                Step::Ready(s) => break s,
                s => panic!("unexpected step {:?}", s),
            };
        };
        assert_eq!(startups, 1);
        assert_eq!(env.count(), 1);
        let closing = sock.close(&mut env);
        assert!(closing.teardown);
        assert_eq!(env.count(), 0);
    }
}

#[test]
fn resolve_result_cases() {
    assert_eq!(resolve_result(Err(HOST_NOT_FOUND), 80), Err(ResolveKind::NotFound));
    assert_eq!(resolve_result(Err(NO_DATA), 80), Err(ResolveKind::NotFound));
    assert_eq!(resolve_result(Err(11002), 80), Err(ResolveKind::Lookup(11002)));
    assert_eq!(resolve_result(Ok(vec![]), 80), Err(ResolveKind::NotFound));
    assert_eq!(
        resolve_result(Ok(vec![[1, 2, 3, 4], [5, 6, 7, 8]]), 443),
        Ok(vec![SocketAddress::V4([1, 2, 3, 4], 443), SocketAddress::V4([5, 6, 7, 8], 443)])
    );
}

#[test]
fn ipv6_address_is_allocated_in_its_family() {
    let mut env = Environment::new();
    let mut ip = [0u8; 16];
    ip[15] = 1;
    let a = SocketAddress::V6(ip, 0x1f90);
    let mut o = Client::from_address(a).open();
    o.advance(&mut env, Report::Begin);
    assert!(matches!(o.advance(&mut env, Report::Started(Ok(()))), Step::Allocate(f) if f == FAMILY_INET6));
    match o.advance(&mut env, Report::Allocated(Ok(9))) {
        Step::Connect(9, rec) => {
            assert_eq!(rec.len(), 28);
            assert_eq!(&rec[0..8], &[23, 0, 0x1f, 0x90, 0, 0, 0, 0]);
            assert_eq!(&rec[8..24], &ip);
            assert_eq!(&rec[24..28], &[0, 0, 0, 0]);
        }
        s => panic!("unexpected step {:?}", s),
    }
}
