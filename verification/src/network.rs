//! Client addresses and the networks of an allow-list. An address is held
//! as its bits, most significant bit first.

use vstd::prelude::*;

verus! {

/// An IP address.
#[derive(Debug, Clone, Copy, PartialEq, Eq, Structural)]
pub enum IpAddress {
    V4(u32),
    V6(u128),
}

/// A network: the addresses that share the first `prefix` bits of `address`.
#[derive(Debug, Clone, Copy, PartialEq, Eq, Structural)]
pub struct IpNetwork {
    pub address: IpAddress,
    pub prefix: u8,
}

/// Whether two IPv4 addresses agree on their first `prefix` bits.
pub open spec fn v4_shares_prefix(network: u32, prefix: u8, address: u32) -> bool {
    prefix == 0 || (prefix <= 32 && network >> ((32 - prefix) as u32) == address >> ((32
        - prefix) as u32))
}

/// Whether two IPv6 addresses agree on their first `prefix` bits.
pub open spec fn v6_shares_prefix(network: u128, prefix: u8, address: u128) -> bool {
    prefix == 0 || (prefix <= 128 && network >> ((128 - prefix) as u128) == address >> ((128
        - prefix) as u128))
}

impl IpNetwork {
    /// Whether the prefix length fits the address family.
    pub open spec fn wf(self) -> bool {
        match self.address {
            IpAddress::V4(_) => self.prefix <= 32,
            IpAddress::V6(_) => self.prefix <= 128,
        }
    }

    /// Whether `address` lies in the network. An address of the other
    /// family never does.
    pub open spec fn holds(self, address: IpAddress) -> bool {
        self.wf() && match (self.address, address) {
            (IpAddress::V4(network), IpAddress::V4(ip)) => v4_shares_prefix(
                network,
                self.prefix,
                ip,
            ),
            (IpAddress::V6(network), IpAddress::V6(ip)) => v6_shares_prefix(
                network,
                self.prefix,
                ip,
            ),
            _ => false,
        }
    }

    /// The network of `address` with `prefix` bits, if the prefix length
    /// fits the address family.
    pub fn new(address: IpAddress, prefix: u8) -> (network: Option<IpNetwork>)
        ensures
            network == if (IpNetwork { address, prefix }).wf() {
                Some(IpNetwork { address, prefix })
            } else {
                None
            },
    {
        let fits = match address {
            IpAddress::V4(_) => prefix <= 32,
            IpAddress::V6(_) => prefix <= 128,
        };
        if fits {
            Some(IpNetwork { address, prefix })
        } else {
            None
        }
    }

    /// Whether `address` lies in the network. A network whose prefix length
    /// does not fit its family holds nothing.
    pub fn contains(&self, address: IpAddress) -> (held: bool)
        ensures
            held == self.holds(address),
    {
        match (self.address, address) {
            (IpAddress::V4(network), IpAddress::V4(ip)) => self.prefix <= 32 && v4_contains(
                network,
                self.prefix,
                ip,
            ),
            (IpAddress::V6(network), IpAddress::V6(ip)) => self.prefix <= 128 && v6_contains(
                network,
                self.prefix,
                ip,
            ),
            _ => false,
        }
    }
}

/// Calls `ipnetwork::Ipv4Network::contains` on the network made by
/// `Ipv4Network::new`. Trusted: the network holds the addresses that agree
/// with its own on the bits that its mask keeps, the first `prefix` ones.
#[verifier::external_body]
fn v4_contains(network: u32, prefix: u8, address: u32) -> (held: bool)
    requires
        prefix <= 32,
    ensures
        held == v4_shares_prefix(network, prefix, address),
{
    match ipnetwork::Ipv4Network::new(network.into(), prefix) {
        Ok(net) => net.contains(address.into()),
        Err(_) => false,
    }
}

/// Calls `ipnetwork::Ipv6Network::contains` on the network made by
/// `Ipv6Network::new`. Trusted: the network holds the addresses that agree
/// with its own on the bits that its mask keeps, the first `prefix` ones.
#[verifier::external_body]
fn v6_contains(network: u128, prefix: u8, address: u128) -> (held: bool)
    requires
        prefix <= 128,
    ensures
        held == v6_shares_prefix(network, prefix, address),
{
    match ipnetwork::Ipv6Network::new(network.into(), prefix) {
        Ok(net) => net.contains(address.into()),
        Err(_) => false,
    }
}

/// Whether one of `networks` holds `address`.
pub open spec fn some_network_holds(networks: Seq<IpNetwork>, address: IpAddress) -> bool {
    exists|i: int| 0 <= i < networks.len() && #[trigger] networks[i].holds(address)
}

/// Whether an allow-list lets `address` through: there is no list, or one
/// of its networks holds the address.
pub open spec fn address_allowed(allowed: Option<Seq<IpNetwork>>, address: IpAddress) -> bool {
    match allowed {
        None => true,
        Some(networks) => some_network_holds(networks, address),
    }
}

/// Whether `networks` has an entry that holds `address`.
pub fn any_network_contains(networks: &Vec<IpNetwork>, address: IpAddress) -> (found: bool)
    ensures
        found == some_network_holds(networks@, address),
{
    let mut i: usize = 0;
    while i < networks.len()
        invariant
            i <= networks.len(),
            forall|j: int| 0 <= j < i ==> !#[trigger] networks@[j].holds(address),
        decreases networks.len() - i,
    {
        if networks[i].contains(address) {
            return true;
        }
        i += 1;
    }
    false
}

} // verus!
