//! A minimal synchronous TCP client over a socket subsystem that needs
//! process-wide startup and teardown.
//!
//! The library holds the decisions: the reservation count of the subsystem,
//! the steps of opening a connection and how each is unwound, the encoding of
//! socket addresses, and how native results are read. The native calls
//! themselves are made by the caller, who reports each outcome back.
pub mod address;
pub mod client;
pub mod env;
pub mod error;
pub mod lemmas;
pub mod socket;

pub use address::{resolve_result, SocketAddress, FAMILY_INET, FAMILY_INET6, HOST_NOT_FOUND, NO_DATA};
pub use client::{Client, Opening, Report, Stage, Step, Target, Unwind};
pub use env::{teardown_result, EnvCall, Environment};
pub use error::{ConnectKind, EnvKind, IoKind, OpenKind, ResolveKind};
pub use lemmas::{
    lemma_end_of_stream_reads_zero, lemma_open_address_succeeds, lemma_open_balance,
    lemma_open_close_cycle, lemma_peek_is_read_without_consuming, lemma_refused_connect_unwinds,
    lemma_unknown_name_not_found,
};
pub use socket::{Closing, RecvCall, Socket, MAX_RECV, PEEK_FLAG, SHUT_DOWN, SOCKET_ERROR};
