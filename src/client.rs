use vstd::prelude::*;
use crate::address::{
    family_of, resolve_result, resolved, sockaddr_of, SocketAddress,
};
use crate::socket::Socket;
use crate::env::{acquire_call, release_call, released_count, EnvCall, Environment};
use crate::error::{ConnectKind, EnvKind, OpenKind};

verus! {

/// Where a client connects: a literal address, or a host name and a port.
#[derive(Debug, Clone)]
pub enum Target {
    Address(SocketAddress),
    Host(String, u16),
}

/// The mathematical form of a `Target`.
pub enum TargetView {
    Address(SocketAddress),
    Host(Seq<char>, u16),
}

impl View for Target {
    type V = TargetView;

    open spec fn view(&self) -> TargetView {
        match *self {
            Target::Address(a) => TargetView::Address(a),
            Target::Host(h, p) => TargetView::Host(h@, p),
        }
    }
}

/// An immutable description of a connection to make.
#[derive(Debug, Clone)]
pub struct Client {
    target: Target,
}

/// How far an opening has come.
#[derive(Debug, Clone, Copy, PartialEq, Eq)]
pub enum Stage {
    /// Nothing done yet.
    Start,
    /// Waiting for the subsystem's startup.
    Starting,
    /// Holding a reservation, waiting for the lookup of the host name.
    Resolving(u16),
    /// Holding a reservation, waiting for a socket for this address.
    Allocating(SocketAddress),
    /// Holding a reservation and a socket, waiting for the connect.
    Connecting(usize, SocketAddress),
    /// Done, with a connection or with a failure.
    Finished,
}

/// The outcome of the native call that the last step asked for.
pub enum Report {
    /// No call yet: the first report of an opening.
    Begin,
    /// The subsystem's startup: success or its native code.
    Started(Result<(), i32>),
    /// The lookup of the host name: its IPv4 addresses, or its native code.
    Resolved(Result<Vec<[u8; 4]>, i32>),
    /// The allocation of a socket: its handle, or the native code.
    Allocated(Result<usize, i32>),
    /// The connect: success or its native code.
    Connected(Result<(), i32>),
}

/// What a failed opening leaves to undo, in this order: close the socket
/// `close` where there is one, then tear the subsystem down where `teardown`
/// holds. Then `error` is the result of the opening.
#[derive(Debug, Clone, Copy, PartialEq, Eq, Structural)]
pub struct Unwind {
    pub close: Option<usize>,
    pub teardown: bool,
    pub error: OpenKind,
}

/// What an opening asks of the caller next.
#[derive(Debug)]
pub enum Step {
    /// Start the subsystem, then report `Started`.
    Startup,
    /// Look the host name up, then report `Resolved`.
    Resolve(String),
    /// Allocate a stream socket of this address family, then report `Allocated`.
    Allocate(i32),
    /// Connect the socket to the address in this native record, then report `Connected`.
    Connect(usize, Vec<u8>),
    /// The opening failed: undo what is listed, then return the error.
    Failed(Unwind),
    /// The opening succeeded.
    Ready(Socket),
}

/// The mathematical form of a `Step`.
pub enum StepView {
    Startup,
    Resolve(Seq<char>),
    Allocate(i32),
    Connect(usize, Seq<u8>),
    Failed(Unwind),
    Ready(usize),
}

impl View for Step {
    type V = StepView;

    open spec fn view(&self) -> StepView {
        match *self {
            Step::Startup => StepView::Startup,
            Step::Resolve(h) => StepView::Resolve(h@),
            Step::Allocate(f) => StepView::Allocate(f),
            Step::Connect(h, rec) => StepView::Connect(h, rec@),
            Step::Failed(u) => StepView::Failed(u),
            Step::Ready(c) => StepView::Ready(c.spec_handle()),
        }
    }
}

/// The stage, the reservation count and the step after one report.
pub struct Transition {
    pub stage: Stage,
    pub count: nat,
    pub step: StepView,
}

/// Whether an opening at `stage` holds a reservation of the environment.
pub open spec fn holds_reservation(stage: Stage) -> bool {
    stage is Resolving || stage is Allocating || stage is Connecting
}

/// Whether an opening at `stage` takes `report` next.
pub open spec fn awaits(stage: Stage, report: Report) -> bool {
    match stage {
        Stage::Start => report is Begin,
        Stage::Starting => report is Started,
        Stage::Resolving(_) => report is Resolved,
        Stage::Allocating(_) => report is Allocated,
        Stage::Connecting(_, _) => report is Connected,
        Stage::Finished => false,
    }
}

/// The lookup outcome that a report carries, as a sequence.
pub open spec fn lookup_view(lookup: Result<Vec<[u8; 4]>, i32>) -> Result<Seq<[u8; 4]>, i32> {
    match lookup {
        Ok(ips) => Ok(ips@),
        Err(c) => Err(c),
    }
}

/// The step that follows a reservation: look the name up, or go straight to
/// allocating a socket for a literal address.
pub open spec fn after_reserved(target: TargetView, count: nat) -> Transition {
    match target {
        TargetView::Address(a) => Transition {
            stage: Stage::Allocating(a),
            count,
            step: StepView::Allocate(family_of(a)),
        },
        TargetView::Host(h, p) => Transition {
            stage: Stage::Resolving(p),
            count,
            step: StepView::Resolve(h),
        },
    }
}

/// Failing with a reservation held: it is given back, and `close` is closed first.
pub open spec fn unwound(count: nat, close: Option<usize>, error: OpenKind) -> Transition {
    Transition {
        stage: Stage::Finished,
        count: released_count(count),
        step: StepView::Failed(
            Unwind { close, teardown: release_call(count) == EnvCall::Teardown, error },
        ),
    }
}

/// One step of opening a connection to `target`: from `stage`, with `count`
/// reservations held, on `report`. The subsystem is reserved first, then the
/// name is resolved where there is one, then a socket is allocated and
/// connected to the first address. The first failure ends the opening and
/// undoes what was done before it.
pub open spec fn transition(target: TargetView, stage: Stage, count: nat, report: Report) -> Transition {
    match stage {
        Stage::Start => if acquire_call(count) == EnvCall::Startup {
            Transition { stage: Stage::Starting, count, step: StepView::Startup }
        } else {
            after_reserved(target, count + 1)
        },
        Stage::Starting => match report {
            Report::Started(Err(code)) if count == 0 => Transition {
                stage: Stage::Finished,
                count,
                step: StepView::Failed(
                    Unwind { close: None, teardown: false, error: OpenKind::Env(EnvKind::StartupFailed(code)) },
                ),
            },
            _ => after_reserved(target, count + 1),
        },
        Stage::Resolving(port) => match report {
            Report::Resolved(lookup) => match resolved(lookup_view(lookup), port) {
                Ok(addrs) => Transition {
                    stage: Stage::Allocating(addrs[0]),
                    count,
                    step: StepView::Allocate(family_of(addrs[0])),
                },
                Err(e) => unwound(count, None, OpenKind::Resolve(e)),
            },
            _ => Transition { stage, count, step: StepView::Startup },
        },
        Stage::Allocating(a) => match report {
            Report::Allocated(Ok(h)) => Transition {
                stage: Stage::Connecting(h, a),
                count,
                step: StepView::Connect(h, sockaddr_of(a)),
            },
            Report::Allocated(Err(code)) => unwound(
                count,
                None,
                OpenKind::Connect(ConnectKind::AllocationFailed(code)),
            ),
            _ => Transition { stage, count, step: StepView::Startup },
        },
        Stage::Connecting(h, _) => match report {
            Report::Connected(Ok(())) => Transition {
                stage: Stage::Finished,
                count,
                step: StepView::Ready(h),
            },
            Report::Connected(Err(code)) => unwound(
                count,
                Some(h),
                OpenKind::Connect(ConnectKind::ConnectFailed(code)),
            ),
            _ => Transition { stage, count, step: StepView::Startup },
        },
        Stage::Finished => Transition { stage, count, step: StepView::Startup },
    }
}

/// An opening in progress: the work of `Client::open`, one native call at a time.
#[derive(Debug)]
pub struct Opening {
    target: Target,
    stage: Stage,
}

impl Client {
    pub closed spec fn spec_target(&self) -> TargetView {
        self.target@
    }

    /// A client of `port` on the host named `host`.
    pub fn new(host: &str, port: u16) -> (r: Client)
        ensures
            r.spec_target() == TargetView::Host(host@, port),
    {
        Client { target: Target::Host(host.to_owned(), port) }
    }

    /// A client of a literal address, which needs no lookup.
    pub fn from_address(addr: SocketAddress) -> (r: Client)
        ensures
            r.spec_target() == TargetView::Address(addr),
    {
        Client { target: Target::Address(addr) }
    }

    pub fn target(&self) -> (r: &Target)
        ensures
            r@ == self.spec_target(),
    {
        &self.target
    }

    /// Begins opening a connection: see `Socket::open`.
    pub fn open(self) -> (r: Opening)
        ensures
            r.spec_target() == self.spec_target(),
            r.spec_stage() == Stage::Start,
    {
        Socket::open(self)
    }
}

impl Socket {
    /// Begins opening a connection to `client`'s target. The caller drives
    /// the returned opening with `Opening::advance`, starting with
    /// `Report::Begin`, until it yields `Step::Ready` or `Step::Failed`.
    pub fn open(client: Client) -> (r: Opening)
        ensures
            r.spec_target() == client.spec_target(),
            r.spec_stage() == Stage::Start,
    {
        Opening { target: client.target, stage: Stage::Start }
    }
}

impl Opening {
    pub closed spec fn spec_target(&self) -> TargetView {
        self.target@
    }

    pub closed spec fn spec_stage(&self) -> Stage {
        self.stage
    }

    pub fn stage(&self) -> (r: Stage)
        ensures
            r == self.spec_stage(),
    {
        self.stage
    }

    /// Whether `report` is the one this opening takes next.
    pub fn awaits(&self, report: &Report) -> (r: bool)
        ensures
            r == awaits(self.spec_stage(), *report),
    {
        match (self.stage, report) {
            (Stage::Start, Report::Begin) => true,
            (Stage::Starting, Report::Started(_)) => true,
            (Stage::Resolving(_), Report::Resolved(_)) => true,
            (Stage::Allocating(_), Report::Allocated(_)) => true,
            (Stage::Connecting(_, _), Report::Connected(_)) => true,
            _ => false,
        }
    }

    fn reserved(&mut self, env: &Environment) -> (r: Step)
        ensures
            final(self).spec_target() == old(self).spec_target(),
            ({
                let t = after_reserved(old(self).spec_target(), env.spec_count());
                final(self).spec_stage() == t.stage && r@ == t.step
            }),
    {
        match &self.target {
            Target::Address(a) => {
                self.stage = Stage::Allocating(*a);
                Step::Allocate(a.family())
            },
            Target::Host(h, p) => {
                self.stage = Stage::Resolving(*p);
                Step::Resolve(h.clone())
            },
        }
    }

    /// Takes the outcome of the last native call and says what to do next,
    /// updating the reservations held in `env`.
    pub fn advance(&mut self, env: &mut Environment, report: Report) -> (r: Step)
        requires
            awaits(old(self).spec_stage(), report),
            old(env).spec_count() < u64::MAX,
        ensures
            final(self).spec_target() == old(self).spec_target(),
            ({
                let t = transition(old(self).spec_target(), old(self).spec_stage(), old(env).spec_count(), report);
                final(self).spec_stage() == t.stage && final(env).spec_count() == t.count && r@ == t.step
            }),
    {
        match (self.stage, report) {
            (Stage::Start, _) => {
                if env.acquire_call() == EnvCall::Startup {
                    self.stage = Stage::Starting;
                    Step::Startup
                } else {
                    let _ = env.acquire(Ok(()));
                    self.reserved(env)
                }
            },
            (Stage::Starting, Report::Started(outcome)) => {
                match env.acquire(outcome) {
                    Ok(()) => self.reserved(env),
                    Err(e) => {
                        self.stage = Stage::Finished;
                        Step::Failed(Unwind { close: None, teardown: false, error: OpenKind::Env(e) })
                    },
                }
            },
            (Stage::Resolving(port), Report::Resolved(lookup)) => {
                match resolve_result(lookup, port) {
                    Ok(addrs) => {
                        let a = addrs[0];
                        self.stage = Stage::Allocating(a);
                        Step::Allocate(a.family())
                    },
                    Err(e) => self.unwind(env, None, OpenKind::Resolve(e)),
                }
            },
            (Stage::Allocating(a), Report::Allocated(Ok(h))) => {
                self.stage = Stage::Connecting(h, a);
                Step::Connect(h, a.to_sockaddr())
            },
            (Stage::Allocating(_), Report::Allocated(Err(code))) => {
                self.unwind(env, None, OpenKind::Connect(ConnectKind::AllocationFailed(code)))
            },
            (Stage::Connecting(h, _), Report::Connected(Ok(()))) => {
                self.stage = Stage::Finished;
                Step::Ready(Socket::wrap(h))
            },
            (Stage::Connecting(h, _), Report::Connected(Err(code))) => {
                self.unwind(env, Some(h), OpenKind::Connect(ConnectKind::ConnectFailed(code)))
            },
            (_, _) => {
                proof {
                    assert(false);
                }
                Step::Startup
            },
        }
    }

    fn unwind(&mut self, env: &mut Environment, close: Option<usize>, error: OpenKind) -> (r: Step)
        ensures
            final(self).spec_target() == old(self).spec_target(),
            ({
                let t = unwound(old(env).spec_count(), close, error);
                final(self).spec_stage() == t.stage && final(env).spec_count() == t.count && r@ == t.step
            }),
    {
        let call = env.release();
        self.stage = Stage::Finished;
        Step::Failed(Unwind { close, teardown: call == EnvCall::Teardown, error })
    }
}

} // verus!
