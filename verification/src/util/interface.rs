//! A network interface of the virtual network: its name and its addresses.
use vstd::prelude::*;

use ipnet::{IpNet, PrefixLenError};

use crate::turn::{IpAddress, SocketAddress};
use crate::util::error::Error;

verus! {

#[verifier::external_type_specification]
#[verifier::external_body]
pub struct ExIpNet(IpNet);

#[verifier::external_type_specification]
#[verifier::external_body]
pub struct ExPrefixLenError(PrefixLenError);

/// The number of bits in an address of this family: 32 or 128.
pub open spec fn spec_address_bits(ip: IpAddress) -> nat {
    match ip {
        IpAddress::V4(_) => 32,
        IpAddress::V6(_) => 128,
    }
}

/// The IPv4 network mask of prefix length `p` (at most 32): `p` one bits,
/// then zero bits.
pub open spec fn spec_v4_mask(p: u32) -> u32 {
    if p == 0 {
        0
    } else {
        u32::MAX << ((32 - p) as u32)
    }
}

/// The IPv6 network mask of prefix length `p` (at most 128).
pub open spec fn spec_v6_mask(p: u32) -> u128 {
    if p == 0 {
        0
    } else {
        u128::MAX << ((128 - p) as u32)
    }
}

/// Whether `mask` is the network mask of prefix length `p` in its family.
pub open spec fn spec_is_mask_of(mask: IpAddress, p: u8) -> bool {
    match mask {
        IpAddress::V4(m) => p <= 32 && m == spec_v4_mask(p as u32),
        IpAddress::V6(m) => p <= 128 && m == spec_v6_mask(p as u32),
    }
}

/// Whether `mask` is the network mask of some prefix length in its family.
pub open spec fn spec_is_mask(mask: IpAddress) -> bool {
    exists|p: u8| spec_is_mask_of(mask, p)
}

/// The prefix length of the network mask `mask` (where `spec_is_mask`
/// holds; there is one at most).
pub open spec fn spec_mask_prefix(mask: IpAddress) -> u8 {
    choose|p: u8| spec_is_mask_of(mask, p)
}

/// Whether `mask` is a network mask whose prefix length an address of
/// `ip`'s family has room for.
pub open spec fn spec_netmask_fits(ip: IpAddress, mask: IpAddress) -> bool {
    spec_is_mask(mask) && spec_mask_prefix(mask) <= spec_address_bits(ip)
}

/// What `Interface::convert` gives for `addr` and `mask`.
pub open spec fn spec_convert(addr: SocketAddress, mask: Option<SocketAddress>) -> Result<
    IpNet,
    Error,
> {
    match mask {
        Some(m) => if spec_netmask_fits(addr.ip, m.ip) {
            Ok(spec_ip_net(addr.ip, spec_mask_prefix(m.ip)))
        } else {
            Err(Error::ErrInvalidMask)
        },
        None => Ok(spec_ip_net(addr.ip, spec_address_bits(addr.ip) as u8)),
    }
}

/// The network of address `ip` and prefix length `prefix_len`, as `ipnet`
/// builds it.
pub uninterp spec fn spec_ip_net(ip: IpAddress, prefix_len: u8) -> IpNet;

/// `IpNet::new`: the network of `ip` with this prefix length; refused when
/// the prefix is longer than the address has bits.
#[verifier::external_body]
fn ip_net_new(ip: IpAddress, prefix_len: u8) -> (r: Result<IpNet, PrefixLenError>)
    ensures
        r is Ok <==> prefix_len <= spec_address_bits(ip),
        r matches Ok(n) ==> n == spec_ip_net(ip, prefix_len),
{
    match ip {
        IpAddress::V4(bits) => IpNet::new(core::net::Ipv4Addr::from(bits).into(), prefix_len),
        IpAddress::V6(bits) => IpNet::new(core::net::Ipv6Addr::from(bits).into(), prefix_len),
    }
}

/// `IpNet::with_netmask`: reads the prefix length off `netmask` (which must
/// be a run of one bits followed by zero bits, in either family) and builds
/// the network of `ip` with it, as `IpNet::new` does.
#[verifier::external_body]
fn ip_net_with_netmask(ip: IpAddress, netmask: IpAddress) -> (r: Result<IpNet, PrefixLenError>)
    ensures
        r is Ok <==> spec_netmask_fits(ip, netmask),
        r matches Ok(n) ==> n == spec_ip_net(ip, spec_mask_prefix(netmask)),
{
    let ip = match ip {
        IpAddress::V4(bits) => core::net::IpAddr::V4(bits.into()),
        IpAddress::V6(bits) => core::net::IpAddr::V6(bits.into()),
    };
    let netmask = match netmask {
        IpAddress::V4(bits) => core::net::IpAddr::V4(bits.into()),
        IpAddress::V6(bits) => core::net::IpAddr::V6(bits.into()),
    };
    IpNet::with_netmask(ip, netmask)
}

/// A network interface: a name and the networks it has addresses in.
#[derive(Debug, Clone, Default)]
pub struct Interface {
    name: String,
    addrs: Vec<IpNet>,
}

impl Interface {
    /// The interface's name.
    pub closed spec fn spec_name(&self) -> Seq<char> {
        self.name@
    }

    /// The interface's addresses, in the order they were added.
    pub closed spec fn spec_addrs(&self) -> Seq<IpNet> {
        self.addrs@
    }

    /// An interface with this name and these addresses.
    pub fn new(name: String, addrs: Vec<IpNet>) -> (r: Interface)
        ensures
            r.spec_name() == name@,
            r.spec_addrs() == addrs@,
    {
        Interface { name, addrs }
    }

    /// Adds an address after the others.
    pub fn add_addr(&mut self, addr: IpNet)
        ensures
            final(self).spec_addrs() == old(self).spec_addrs().push(addr),
            final(self).spec_name() == old(self).spec_name(),
    {
        self.addrs.push(addr);
    }

    /// The interface's name.
    pub fn name(&self) -> (r: &str)
        ensures
            r@ == self.spec_name(),
    {
        self.name.as_str()
    }

    /// The network of `addr` under `mask`, or, without a mask, the network
    /// of `addr` alone (prefix length 32 for IPv4, 128 for IPv6). A mask that
    /// is no run of one bits followed by zero bits, or whose prefix is longer
    /// than `addr` has bits, is refused.
    pub fn convert(addr: SocketAddress, mask: Option<SocketAddress>) -> (res: Result<
        IpNet,
        Error,
    >)
        ensures
            res == spec_convert(addr, mask),
    {
        match mask {
            Some(m) => match ip_net_with_netmask(addr.ip, m.ip) {
                Ok(n) => Ok(n),
                Err(_) => Err(Error::ErrInvalidMask),
            },
            None => {
                let bits: u8 = match addr.ip {
                    IpAddress::V4(_) => 32,
                    IpAddress::V6(_) => 128,
                };
                match ip_net_new(addr.ip, bits) {
                    Ok(n) => Ok(n),
                    Err(_) => Err(Error::ErrInvalidMask),
                }
            },
        }
    }

    /// The interface's addresses.
    pub fn addrs(&self) -> (r: &[IpNet])
        ensures
            r@ == self.spec_addrs(),
    {
        self.addrs.as_slice()
    }
}

} // verus!
