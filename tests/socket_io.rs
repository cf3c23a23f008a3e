use tcp_client::{
    teardown_result, EnvCall, EnvKind, Environment, IoKind, RecvCall, Socket, SocketAddress,
    MAX_RECV, PEEK_FLAG, SHUT_DOWN,
};

fn connected(env: &mut Environment, handle: usize) -> Socket {
    let mut o = Socket::open(tcp_client::Client::from_address(SocketAddress::V4([127, 0, 0, 1], 80)));
    o.advance(env, tcp_client::Report::Begin);
    if env.count() == 0 {
        o.advance(env, tcp_client::Report::Started(Ok(())));
    }
    o.advance(env, tcp_client::Report::Allocated(Ok(handle)));
    match o.advance(env, tcp_client::Report::Connected(Ok(()))) {
        tcp_client::Step::Ready(s) => s,
        s => panic!("unexpected step {:?}", s),
    }
}

#[test]
fn recv_results() {
    assert_eq!(Socket::recv_result(12, 0), Ok(12));
    assert_eq!(Socket::recv_result(0, 0), Ok(0));
    assert_eq!(Socket::recv_result(-1, SHUT_DOWN), Ok(0));
    assert_eq!(Socket::recv_result(-1, 10054), Err(IoKind::Recv(10054)));
}

#[test]
fn end_of_stream_stays_zero() {
    for _ in 0..3 {
        assert_eq!(Socket::recv_result(0, 0), Ok(0));
        assert_eq!(Socket::recv_result(-1, SHUT_DOWN), Ok(0));
    }
}

#[test]
fn peek_and_read_calls_differ_only_in_flag() {
    let mut env = Environment::new();
    let s = connected(&mut env, 17);
    let r = s.read_call(512);
    let p = s.peek_call(512);
    assert_eq!(r, RecvCall { handle: 17, len: 512, flags: 0 });
    assert_eq!(p, RecvCall { handle: 17, len: 512, flags: PEEK_FLAG });
    assert_eq!(s.read_call(usize::MAX).len, MAX_RECV);
    assert_eq!(s.peek_call(0).len, 0);
}

#[test]
fn two_sockets_share_one_startup() {
    let mut env = Environment::new();
    let a = connected(&mut env, 1);
    let b = connected(&mut env, 2);
    assert_eq!(env.count(), 2);
    let ca = a.close(&mut env);
    assert!(!ca.teardown);
    assert_eq!(env.count(), 1);
    let cb = b.close(&mut env);
    assert!(cb.teardown);
    assert_eq!(cb.handle, 2);
    assert_eq!(env.count(), 0);
}

#[test]
fn environment_counts() {
    let mut env = Environment::new();
    assert!(!env.is_active());
    assert_eq!(env.acquire_call(), EnvCall::Startup);
    assert_eq!(env.acquire(Err(10067)), Err(EnvKind::StartupFailed(10067)));
    assert_eq!(env.count(), 0);
    assert_eq!(env.acquire(Ok(())), Ok(()));
    assert_eq!(env.acquire_call(), EnvCall::Keep);
    assert_eq!(env.acquire(Err(5)), Ok(()));
    assert_eq!(env.count(), 2);
    assert_eq!(env.release(), EnvCall::Keep);
    assert_eq!(env.release(), EnvCall::Teardown);
    assert_eq!(env.release(), EnvCall::Keep);
    assert_eq!(env.count(), 0);
}

#[test]
fn teardown_results() {
    assert_eq!(teardown_result(Ok(())), Ok(()));
    assert_eq!(teardown_result(Err(10093)), Err(EnvKind::TeardownFailed(10093)));
}

#[test]
fn sockaddr_of_ipv4() {
    let a = SocketAddress::V4([192, 168, 1, 20], 8080);
    assert_eq!(a.port(), 8080);
    assert_eq!(a.family(), 2);
    assert_eq!(a.to_sockaddr(), vec![2, 0, 0x1f, 0x90, 192, 168, 1, 20, 0, 0, 0, 0, 0, 0, 0, 0]);
}
