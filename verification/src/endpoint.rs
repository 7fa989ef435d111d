use vstd::prelude::*;

verus! {

/// An IP address as plain values, so that address selection can be
/// reasoned about; the surrounding binary converts to the operating
/// system's address types when it binds and sends.
#[derive(Clone, Copy, PartialEq, Eq, Structural, Debug)]
pub enum IpAddress {
    V4(u8, u8, u8, u8),
    V6(u16, u16, u16, u16, u16, u16, u16, u16),
}

/// A socket address: one IP address and one port. Port 0 stands for an
/// OS-chosen ephemeral port.
#[derive(Clone, Copy, PartialEq, Eq, Structural, Debug)]
pub struct Endpoint {
    pub addr: IpAddress,
    pub port: u16,
}

/// The wildcard ("unspecified") address of the same family as `a`.
pub open spec fn unspecified_like(a: IpAddress) -> IpAddress {
    match a {
        IpAddress::V4(..) => IpAddress::V4(0, 0, 0, 0),
        IpAddress::V6(..) => IpAddress::V6(0, 0, 0, 0, 0, 0, 0, 0),
    }
}

/// The local address the worker binds to: the caller's explicit choice when
/// one is given, else the wildcard address of the destination's family with
/// an OS-chosen ephemeral port.
pub open spec fn chosen_local(destination: Endpoint, local: Option<Endpoint>) -> Endpoint {
    match local {
        Some(a) => a,
        None => Endpoint { addr: unspecified_like(destination.addr), port: 0 },
    }
}

/// Picks the local bind address, per [`chosen_local`].
pub fn local_bind_address(destination: &Endpoint, local: Option<Endpoint>) -> (r: Endpoint)
    ensures
        r == chosen_local(*destination, local),
{
    match local {
        Some(a) => a,
        None => match destination.addr {
            IpAddress::V4(..) => Endpoint { addr: IpAddress::V4(0, 0, 0, 0), port: 0 },
            IpAddress::V6(..) => Endpoint {
                addr: IpAddress::V6(0, 0, 0, 0, 0, 0, 0, 0),
                port: 0,
            },
        },
    }
}

/// The fixed destination of this utility: the IPv4 loopback address,
/// port 7001.
pub fn default_destination() -> (r: Endpoint)
    ensures
        r == (Endpoint { addr: IpAddress::V4(127, 0, 0, 1), port: 7001 }),
{
    Endpoint { addr: IpAddress::V4(127, 0, 0, 1), port: 7001 }
}

} // verus!
