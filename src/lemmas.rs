use vstd::prelude::*;
use crate::address::{family_of, resolved, sockaddr_of, is_not_found, SocketAddress};
use crate::client::{awaits, lookup_view, holds_reservation, transition, Report, Stage, StepView, TargetView, Transition, Unwind};
use crate::socket::{received, recv_len, RecvCall, PEEK_FLAG, SHUT_DOWN};
use crate::env::{acquire_call, release_call, released_count, EnvCall};
use crate::error::{ConnectKind, OpenKind, ResolveKind};

verus! {

/// Whether an opening of `target` at `stage`, with `count` reservations held,
/// takes each of `reports` in turn. Nothing else changes the count meanwhile.
pub open spec fn accepts(target: TargetView, stage: Stage, count: nat, reports: Seq<Report>) -> bool
    decreases reports.len(),
{
    reports.len() > 0 && awaits(stage, reports[0]) && (reports.len() == 1 || {
        let t = transition(target, stage, count, reports[0]);
        accepts(target, t.stage, t.count, reports.drop_first())
    })
}

/// Where an opening of `target` at `stage`, with `count` reservations held,
/// stands after taking `reports`, and the step that it asked for last.
pub open spec fn run(target: TargetView, stage: Stage, count: nat, reports: Seq<Report>) -> Transition
    decreases reports.len(),
{
    let t = transition(target, stage, count, reports[0]);
    if reports.len() <= 1 {
        t
    } else {
        run(target, t.stage, t.count, reports.drop_first())
    }
}

pub open spec fn held(stage: Stage) -> nat {
    if holds_reservation(stage) { 1 } else { 0 }
}

proof fn lemma_step_balance(target: TargetView, stage: Stage, count: nat, report: Report)
    requires
        awaits(stage, report),
        holds_reservation(stage) ==> count >= 1,
    ensures
        ({
            let t = transition(target, stage, count, report);
            &&& t.stage is Finished <==> (t.step is Failed || t.step is Ready)
            &&& !(t.stage is Finished) ==> t.count + held(stage) == count + held(t.stage)
            &&& holds_reservation(t.stage) ==> t.count >= 1
            &&& t.step is Failed ==> t.count + held(stage) == count
            &&& t.step is Ready ==> t.count + held(stage) == count + 1
        }),
{
    match stage {
        Stage::Resolving(port) => {
            if let Report::Resolved(lookup) = report {
                match resolved(lookup_view(lookup), port) {
                    Ok(addrs) => {},
                    Err(e) => {},
                }
            }
        },
        _ => {},
    }
}

proof fn lemma_run_balance(target: TargetView, stage: Stage, count: nat, reports: Seq<Report>)
    requires
        accepts(target, stage, count, reports),
        holds_reservation(stage) ==> count >= 1,
    ensures
        run(target, stage, count, reports).step is Failed ==> run(target, stage, count, reports).count
            + held(stage) == count,
        run(target, stage, count, reports).step is Ready ==> run(target, stage, count, reports).count
            + held(stage) == count + 1,
    decreases reports.len(),
{
    let t = transition(target, stage, count, reports[0]);
    lemma_step_balance(target, stage, count, reports[0]);
    if reports.len() > 1 {
        let rest = reports.drop_first();
        assert(accepts(target, t.stage, t.count, rest));
        assert(awaits(t.stage, rest[0]));
        assert(!(t.stage is Finished));
        lemma_run_balance(target, t.stage, t.count, rest);
        assert(run(target, stage, count, reports) == run(target, t.stage, t.count, rest));
    } else {
        assert(run(target, stage, count, reports) == t);
    }
}

/// An opening that fails leaves the reservation count as it found it: every
/// reservation it took is given back, and none twice. One that succeeds
/// leaves exactly one more, which its connection holds.
pub proof fn lemma_open_balance(target: TargetView, count: nat, reports: Seq<Report>)
    requires
        accepts(target, Stage::Start, count, reports),
    ensures
        run(target, Stage::Start, count, reports).step is Failed ==> run(target, Stage::Start, count, reports).count
            == count,
        run(target, Stage::Start, count, reports).step is Ready ==> run(target, Stage::Start, count, reports).count
            == count + 1,
{
    lemma_run_balance(target, Stage::Start, count, reports);
}

/// With no reservation held, an opening that succeeds asks for the
/// subsystem's startup as its first step and leaves one reservation; closing
/// its connection then asks for teardown and leaves none, so the next opening
/// starts the subsystem again.
pub proof fn lemma_open_close_cycle(target: TargetView, reports: Seq<Report>)
    requires
        accepts(target, Stage::Start, 0, reports),
        run(target, Stage::Start, 0, reports).step is Ready,
    ensures
        transition(target, Stage::Start, 0, reports[0]).step == StepView::Startup,
        run(target, Stage::Start, 0, reports).count == 1,
        release_call(run(target, Stage::Start, 0, reports).count) == EnvCall::Teardown,
        released_count(run(target, Stage::Start, 0, reports).count) == 0,
        acquire_call(released_count(run(target, Stage::Start, 0, reports).count)) == EnvCall::Startup,
{
    lemma_open_balance(target, 0, reports);
}

/// Where every native call succeeds, an opening of a literal address asks for
/// startup, a socket of the address's family and a connect to its record,
/// and ends with a connection on the allocated socket.
pub proof fn lemma_open_address_succeeds(addr: SocketAddress, handle: usize)
    ensures
        ({
            let target = TargetView::Address(addr);
            let reports = seq![
                Report::Begin,
                Report::Started(Ok(())),
                Report::Allocated(Ok(handle)),
                Report::Connected(Ok(())),
            ];
            let t0 = transition(target, Stage::Start, 0, reports[0]);
            let t1 = transition(target, t0.stage, t0.count, reports[1]);
            let t2 = transition(target, t1.stage, t1.count, reports[2]);
            &&& accepts(target, Stage::Start, 0, reports)
            &&& t0.step == StepView::Startup
            &&& t1.step == StepView::Allocate(family_of(addr))
            &&& t2.step == StepView::Connect(handle, sockaddr_of(addr))
            &&& run(target, Stage::Start, 0, reports).step == StepView::Ready(handle)
            &&& run(target, Stage::Start, 0, reports).count == 1
        }),
{
    let target = TargetView::Address(addr);
    let reports = seq![
        Report::Begin,
        Report::Started(Ok(())),
        Report::Allocated(Ok(handle)),
        Report::Connected(Ok(())),
    ];
    let t0 = transition(target, Stage::Start, 0, reports[0]);
    let t1 = transition(target, t0.stage, t0.count, reports[1]);
    let t2 = transition(target, t1.stage, t1.count, reports[2]);
    let r1 = reports.drop_first();
    let r2 = r1.drop_first();
    let r3 = r2.drop_first();
    assert(r1 =~= seq![Report::Started(Ok(())), Report::Allocated(Ok(handle)), Report::Connected(Ok(()))]);
    assert(r2 =~= seq![Report::Allocated(Ok(handle)), Report::Connected(Ok(()))]);
    assert(r3 =~= seq![Report::Connected(Ok(()))]);
    assert(t0.stage == Stage::Starting);
    assert(t1.stage == Stage::Allocating(addr));
    assert(t2.stage == Stage::Connecting(handle, addr));
    assert(accepts(target, t2.stage, t2.count, r3));
    assert(accepts(target, t1.stage, t1.count, r2));
    assert(accepts(target, t0.stage, t0.count, r1));
    assert(run(target, t2.stage, t2.count, r3).step == StepView::Ready(handle));
    assert(run(target, t1.stage, t1.count, r2) == run(target, t2.stage, t2.count, r3));
    assert(run(target, t0.stage, t0.count, r1) == run(target, t1.stage, t1.count, r2));
}

/// A refused connect ends the opening with `ConnectFailed` and its code; the
/// socket is closed and the reservation given back, with a teardown where it
/// was the last one.
pub proof fn lemma_refused_connect_unwinds(target: TargetView, handle: usize, addr: SocketAddress, count: nat, code: i32)
    requires
        count >= 1,
    ensures
        transition(target, Stage::Connecting(handle, addr), count, Report::Connected(Err(code))) == (Transition {
            stage: Stage::Finished,
            count: (count - 1) as nat,
            step: StepView::Failed(Unwind {
                close: Some(handle),
                teardown: count == 1,
                error: OpenKind::Connect(ConnectKind::ConnectFailed(code)),
            }),
        }),
{
}

/// A name without addresses fails to resolve with `NotFound`, whether the
/// lookup says so by its code or lists no address.
pub proof fn lemma_unknown_name_not_found(code: i32, port: u16)
    requires
        is_not_found(code),
    ensures
        resolved(Err(code), port) == Err::<Seq<SocketAddress>, ResolveKind>(ResolveKind::NotFound),
        resolved(Ok(Seq::<[u8; 4]>::empty()), port) == Err::<Seq<SocketAddress>, ResolveKind>(ResolveKind::NotFound),
{
}

/// A peek asks for exactly what a read of the same buffer asks for, but for
/// the flag that leaves the bytes in the receive queue; the two read results
/// alike.
pub proof fn lemma_peek_is_read_without_consuming(read: RecvCall, peek: RecvCall, handle: usize, buf_len: nat)
    requires
        read == (RecvCall { handle, len: recv_len(buf_len), flags: 0 }),
        peek == (RecvCall { handle, len: recv_len(buf_len), flags: PEEK_FLAG }),
    ensures
        peek == (RecvCall { flags: PEEK_FLAG, ..read }),
        read.flags != PEEK_FLAG,
{
}

/// End of stream is a successful read of zero bytes, never an error: both
/// a zero result from an orderly shutdown of the peer and the code of a side
/// already shut down, on every receive that meets them.
pub proof fn lemma_end_of_stream_reads_zero(code: i32)
    ensures
        received(0, code) == Ok::<usize, crate::error::IoKind>(0),
        received(-1i32, SHUT_DOWN) == Ok::<usize, crate::error::IoKind>(0),
        code != SHUT_DOWN ==> received(-1i32, code) is Err,
{
}

} // verus!
