use vstd::prelude::*;

verus! {

/// Failure of the subsystem's startup or teardown call, with its native code.
#[derive(Debug, Clone, Copy, PartialEq, Eq, Structural)]
pub enum EnvKind {
    StartupFailed(i32),
    TeardownFailed(i32),
}

/// Failure to turn a host name into addresses.
#[derive(Debug, Clone, Copy, PartialEq, Eq, Structural)]
pub enum ResolveKind {
    /// The name is unknown or has no address records.
    NotFound,
    /// Any other lookup failure, with its native code.
    Lookup(i32),
}

/// Failure to obtain a connected socket.
#[derive(Debug, Clone, Copy, PartialEq, Eq, Structural)]
pub enum ConnectKind {
    AllocationFailed(i32),
    ConnectFailed(i32),
}

/// Failure of a receive on a connected socket.
#[derive(Debug, Clone, Copy, PartialEq, Eq, Structural)]
pub enum IoKind {
    Recv(i32),
}

/// Any failure of `open`.
#[derive(Debug, Clone, Copy, PartialEq, Eq, Structural)]
pub enum OpenKind {
    Env(EnvKind),
    Resolve(ResolveKind),
    Connect(ConnectKind),
}

} // verus!
