use vstd::prelude::*;
use crate::error::ResolveKind;

verus! {

/// Address family code of IPv4 sockets.
pub const FAMILY_INET: i32 = 2;
/// Address family code of IPv6 sockets.
pub const FAMILY_INET6: i32 = 23;
/// Native code: the host is not known.
pub const HOST_NOT_FOUND: i32 = 11001;
/// Native code: the name is valid but has no address records.
pub const NO_DATA: i32 = 11004;

/// An IPv4 or IPv6 address with a port.
#[derive(Debug, Clone, Copy, PartialEq, Eq)]
pub enum SocketAddress {
    V4([u8; 4], u16),
    V6([u8; 16], u16),
}

/// The port in network byte order: most significant byte first.
pub open spec fn port_bytes(port: u16) -> Seq<u8> {
    seq![(port / 256) as u8, (port % 256) as u8]
}

/// `n` zero bytes.
pub open spec fn zeros(n: nat) -> Seq<u8> {
    Seq::new(n, |i: int| 0u8)
}

/// The native record of an address, as `connect` reads it: the family as a
/// little-endian 16-bit value, the port in network order, then the address
/// (IPv4: then 8 zero bytes; IPv6: after a zero flow label, then a zero scope).
pub open spec fn sockaddr_of(a: SocketAddress) -> Seq<u8> {
    match a {
        SocketAddress::V4(ip, port) => seq![FAMILY_INET as u8, 0u8] + port_bytes(port) + ip@ + zeros(8),
        SocketAddress::V6(ip, port) => seq![FAMILY_INET6 as u8, 0u8] + port_bytes(port) + zeros(4)
            + ip@ + zeros(4),
    }
}

/// The family code of the socket that can reach an address.
pub open spec fn family_of(a: SocketAddress) -> i32 {
    match a {
        SocketAddress::V4(_, _) => FAMILY_INET,
        SocketAddress::V6(_, _) => FAMILY_INET6,
    }
}

/// Whether a native lookup code means that the name has no addresses.
pub open spec fn is_not_found(code: i32) -> bool {
    code == HOST_NOT_FOUND || code == NO_DATA
}

/// The addresses that a lookup which found `ips` gives for `port`.
pub open spec fn with_port(ips: Seq<[u8; 4]>, port: u16) -> Seq<SocketAddress> {
    ips.map_values(|ip: [u8; 4]| SocketAddress::V4(ip, port))
}

/// What resolving yields from the outcome of the native lookup.
pub open spec fn resolved(lookup: Result<Seq<[u8; 4]>, i32>, port: u16) -> Result<Seq<SocketAddress>, ResolveKind> {
    match lookup {
        Err(code) => if is_not_found(code) {
            Err(ResolveKind::NotFound)
        } else {
            Err(ResolveKind::Lookup(code))
        },
        Ok(ips) => if ips.len() == 0 {
            Err(ResolveKind::NotFound)
        } else {
            Ok(with_port(ips, port))
        },
    }
}

fn push_bytes(out: &mut Vec<u8>, bytes: &[u8])
    ensures
        final(out)@ == old(out)@ + bytes@,
{
    let mut i: usize = 0;
    while i < bytes.len()
        invariant
            i <= bytes@.len(),
            out@ == old(out)@ + bytes@.subrange(0, i as int),
        decreases bytes@.len() - i,
    {
        out.push(bytes[i]);
        i = i + 1;
        assert(bytes@.subrange(0, i as int) =~= bytes@.subrange(0, i - 1) + seq![bytes@[i - 1]]);
    }
    assert(bytes@.subrange(0, i as int) =~= bytes@);
}

fn push_zeros(out: &mut Vec<u8>, n: usize)
    ensures
        final(out)@ == old(out)@ + zeros(n as nat),
{
    let mut i: usize = 0;
    while i < n
        invariant
            i <= n,
            out@ == old(out)@ + zeros(i as nat),
        decreases n - i,
    {
        out.push(0u8);
        i = i + 1;
        assert(zeros(i as nat) =~= zeros((i - 1) as nat) + seq![0u8]);
    }
}

fn push_port(out: &mut Vec<u8>, port: u16)
    ensures
        final(out)@ == old(out)@ + port_bytes(port),
{
    out.push((port / 256) as u8);
    out.push((port % 256) as u8);
    assert(out@ =~= old(out)@ + port_bytes(port));
}

impl SocketAddress {
    pub fn port(&self) -> (r: u16)
        ensures
            r == match *self {
                SocketAddress::V4(_, p) => p,
                SocketAddress::V6(_, p) => p,
            },
    {
        match self {
            SocketAddress::V4(_, p) => *p,
            SocketAddress::V6(_, p) => *p,
        }
    }

    /// The family code of the socket to allocate for this address.
    pub fn family(&self) -> (r: i32)
        ensures
            r == family_of(*self),
    {
        match self {
            SocketAddress::V4(_, _) => FAMILY_INET,
            SocketAddress::V6(_, _) => FAMILY_INET6,
        }
    }

    /// The native record of this address, to hand to `connect` with its length.
    pub fn to_sockaddr(&self) -> (r: Vec<u8>)
        ensures
            r@ == sockaddr_of(*self),
            r@.len() == match *self {
                SocketAddress::V4(_, _) => 16nat,
                SocketAddress::V6(_, _) => 28nat,
            },
    {
        let mut out: Vec<u8> = Vec::new();
        match self {
            SocketAddress::V4(ip, port) => {
                out.push(2u8);
                out.push(0u8);
                push_port(&mut out, *port);
                push_bytes(&mut out, ip);
                push_zeros(&mut out, 8);
            },
            SocketAddress::V6(ip, port) => {
                out.push(23u8);
                out.push(0u8);
                push_port(&mut out, *port);
                push_zeros(&mut out, 4);
                push_bytes(&mut out, ip);
                push_zeros(&mut out, 4);
            },
        }
        assert(out@ =~= sockaddr_of(*self));
        out
    }
}

/// Reads the outcome of a native lookup of a host name: the IPv4 addresses it
/// listed, or its native error code. Each address is paired with `port`.
pub fn resolve_result(lookup: Result<Vec<[u8; 4]>, i32>, port: u16) -> (r: Result<Vec<SocketAddress>, ResolveKind>)
    ensures
        r matches Ok(v) ==> resolved(
            match lookup { Ok(ips) => Ok(ips@), Err(c) => Err(c) },
            port,
        ) == Ok::<Seq<SocketAddress>, ResolveKind>(v@),
        r matches Err(e) ==> resolved(
            match lookup { Ok(ips) => Ok(ips@), Err(c) => Err(c) },
            port,
        ) == Err::<Seq<SocketAddress>, ResolveKind>(e),
{
    match lookup {
        Err(code) => if code == HOST_NOT_FOUND || code == NO_DATA {
            Err(ResolveKind::NotFound)
        } else {
            Err(ResolveKind::Lookup(code))
        },
        Ok(ips) => {
            if ips.len() == 0 {
                return Err(ResolveKind::NotFound);
            }
            let mut out: Vec<SocketAddress> = Vec::new();
            let mut i: usize = 0;
            while i < ips.len()
                invariant
                    i <= ips@.len(),
                    out@ == with_port(ips@.subrange(0, i as int), port),
                decreases ips@.len() - i,
            {
                out.push(SocketAddress::V4(ips[i], port));
                i = i + 1;
                assert(with_port(ips@.subrange(0, i as int), port) =~= with_port(
                    ips@.subrange(0, i - 1),
                    port,
                ).push(SocketAddress::V4(ips@[i - 1], port)));
            }
            assert(ips@.subrange(0, i as int) =~= ips@);
            Ok(out)
        },
    }
}

} // verus!
