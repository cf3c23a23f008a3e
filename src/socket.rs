use vstd::prelude::*;
use crate::env::{release_call, released_count, EnvCall, Environment};
use crate::error::IoKind;

verus! {

/// Native result of a failed socket call.
pub const SOCKET_ERROR: i32 = -1;
/// Native code: the socket's receiving side has been shut down.
pub const SHUT_DOWN: i32 = 10058;
/// Receive flag that leaves the bytes in the receive queue.
pub const PEEK_FLAG: i32 = 2;
/// The largest length that one native receive takes.
pub const MAX_RECV: i32 = 0x7fff_ffff;

/// One native receive to perform: on `handle`, at most `len` bytes, with `flags`.
#[derive(Debug, Clone, Copy, PartialEq, Eq, Structural)]
pub struct RecvCall {
    pub handle: usize,
    pub len: i32,
    pub flags: i32,
}

/// What closing a connection asks of the caller, in this order: close the
/// native `handle`, then tear the subsystem down where `teardown` holds.
/// Both steps are taken whatever the first one returned.
#[derive(Debug, Clone, Copy, PartialEq, Eq, Structural)]
pub struct Closing {
    pub handle: usize,
    pub teardown: bool,
}

/// The length that a native receive into a buffer of `buf_len` bytes asks for.
pub open spec fn recv_len(buf_len: nat) -> i32 {
    if buf_len > MAX_RECV as nat { MAX_RECV } else { buf_len as i32 }
}

/// What a receive returns from the native result `ret` and the native error
/// code `code` that was current after it. End of stream, from an orderly
/// shutdown of the peer or from a side already shut down, reads as zero bytes.
pub open spec fn received(ret: i32, code: i32) -> Result<usize, IoKind> {
    if ret >= 0 {
        Ok(ret as usize)
    } else if code == SHUT_DOWN {
        Ok(0)
    } else {
        Err(IoKind::Recv(code))
    }
}

/// An open, connected stream socket. While it exists it holds one
/// reservation of the environment; `close` gives both back.
#[derive(Debug, PartialEq, Eq, Structural)]
pub struct Socket {
    handle: usize,
}

impl Socket {
    pub closed spec fn spec_handle(&self) -> usize {
        self.handle
    }

    /// Wraps a native handle that `connect` succeeded on.
    pub(crate) fn wrap(handle: usize) -> (r: Socket)
        ensures
            r.spec_handle() == handle,
    {
        Socket { handle }
    }

    pub fn handle(&self) -> (r: usize)
        ensures
            r == self.spec_handle(),
    {
        self.handle
    }

    /// The native receive that reads into a buffer of `buf_len` bytes,
    /// taking the bytes from the receive queue.
    pub fn read_call(&self, buf_len: usize) -> (r: RecvCall)
        ensures
            r == (RecvCall { handle: self.spec_handle(), len: recv_len(buf_len as nat), flags: 0 }),
    {
        RecvCall { handle: self.handle, len: clamp_len(buf_len), flags: 0 }
    }

    /// The native receive that peeks into a buffer of `buf_len` bytes: the
    /// same call as `read_call`, but the bytes stay in the receive queue.
    pub fn peek_call(&self, buf_len: usize) -> (r: RecvCall)
        ensures
            r == (RecvCall { handle: self.spec_handle(), len: recv_len(buf_len as nat), flags: PEEK_FLAG }),
    {
        RecvCall { handle: self.handle, len: clamp_len(buf_len), flags: PEEK_FLAG }
    }

    /// Reads the outcome of a native receive, of a read or of a peek alike.
    pub fn recv_result(ret: i32, code: i32) -> (r: Result<usize, IoKind>)
        ensures
            r == received(ret, code),
    {
        if ret >= 0 {
            Ok(ret as usize)
        } else if code == SHUT_DOWN {
            Ok(0)
        } else {
            Err(IoKind::Recv(code))
        }
    }

    /// Ends the connection: gives its reservation back to `env` and says
    /// which native calls release the rest.
    pub fn close(self, env: &mut Environment) -> (r: Closing)
        ensures
            r.handle == self.spec_handle(),
            r.teardown == (release_call(old(env).spec_count()) == EnvCall::Teardown),
            final(env).spec_count() == released_count(old(env).spec_count()),
    {
        let call = env.release();
        Closing { handle: self.handle, teardown: call == EnvCall::Teardown }
    }
}

fn clamp_len(buf_len: usize) -> (r: i32)
    ensures
        r == recv_len(buf_len as nat),
{
    if buf_len > MAX_RECV as usize {
        MAX_RECV
    } else {
        buf_len as i32
    }
}

} // verus!
