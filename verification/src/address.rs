//! Addresses as the protocol carries them, and the request made of one.

use vstd::prelude::*;

verus! {

/// Address type of a four-octet IPv4 address.
pub const ATYP_IPV4: u8 = 0x01;

/// Address type of a domain name, sent as a length byte and the name.
pub const ATYP_DOMAIN: u8 = 0x03;

/// Address type of a sixteen-octet IPv6 address.
pub const ATYP_IPV6: u8 = 0x04;

/// An IP address, held as the octets that go on the wire.
#[derive(Clone, Copy, Debug, PartialEq, Eq, Hash)]
pub enum IpAddress {
    V4([u8; 4]),
    V6([u8; 16]),
}

impl IpAddress {
    /// The address type byte that announces this family on the wire.
    pub open spec fn address_type(self) -> u8 {
        match self {
            IpAddress::V4(_) => ATYP_IPV4,
            IpAddress::V6(_) => ATYP_IPV6,
        }
    }

    /// The octets of the address in wire order.
    pub open spec fn octets(self) -> Seq<u8> {
        match self {
            IpAddress::V4(o) => o@,
            IpAddress::V6(o) => o@,
        }
    }
}

/// One end of a TCP connection.
#[derive(Clone, Copy, Debug, PartialEq, Eq, Hash)]
pub struct SocketAddress {
    pub ip: IpAddress,
    pub port: u16,
}

/// The destination that a client names: an IP address, or a domain name that
/// is still to be resolved.
#[derive(Debug, PartialEq, Eq)]
pub enum Address {
    IpAddr(IpAddress),
    DomainName(String),
}

/// What an `Address` is in contracts: the domain name is its characters.
pub enum AddressView {
    IpAddr(IpAddress),
    DomainName(Seq<char>),
}

impl View for Address {
    type V = AddressView;

    open spec fn view(&self) -> AddressView {
        match self {
            Address::IpAddr(ip) => AddressView::IpAddr(*ip),
            Address::DomainName(name) => AddressView::DomainName(name@),
        }
    }
}

impl Clone for Address {
    fn clone(&self) -> (copy: Self)
        ensures
            copy@ == self@,
    {
        match self {
            Address::IpAddr(ip) => Address::IpAddr(*ip),
            Address::DomainName(name) => Address::DomainName(name.clone()),
        }
    }
}

/// A request to connect to `address` on port `dport`.
#[derive(Debug, PartialEq, Eq)]
pub struct Request {
    pub address: Address,
    pub dport: u16,
}

/// What a `Request` is in contracts.
pub struct RequestView {
    pub address: AddressView,
    pub dport: u16,
}

impl View for Request {
    type V = RequestView;

    open spec fn view(&self) -> RequestView {
        RequestView { address: self.address@, dport: self.dport }
    }
}

impl Clone for Request {
    fn clone(&self) -> (copy: Self)
        ensures
            copy@ == self@,
    {
        Request { address: self.address.clone(), dport: self.dport }
    }
}

} // verus!
