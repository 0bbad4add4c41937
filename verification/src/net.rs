//! Addressing and errors of the TCP interface layer.
//!
//! The interface state machine itself polls an outside network stack and
//! lives with the embedder; the address vocabulary it is configured with and
//! the error vocabulary it reports through are defined here.

use vstd::prelude::*;

verus! {

/// An IP address, as plain bytes in network order.
#[derive(Clone, Copy, Debug, PartialEq, Eq)]
pub enum IpAddr {
    V4([u8; 4]),
    V6([u8; 16]),
}

impl IpAddr {
    /// The longest prefix an address of this kind can be masked with.
    pub open spec fn max_prefix_len(&self) -> int {
        match self {
            IpAddr::V4(_) => 32,
            IpAddr::V6(_) => 64,
        }
    }
}

/// A block of IP addresses an interface handles: an address and the length
/// of its network prefix, no longer than the address kind admits.
#[derive(Clone, Copy, Debug, PartialEq, Eq)]
pub struct IpCidr {
    address: IpAddr,
    prefix_len: u8,
}

impl IpCidr {
    /// The block's address.
    pub closed spec fn address_spec(&self) -> IpAddr {
        self.address
    }

    /// The block's prefix length.
    pub closed spec fn prefix_len_spec(&self) -> u8 {
        self.prefix_len
    }

    /// Whether a prefix length is admissible for the address.
    pub open spec fn prefix_ok(address: IpAddr, prefix_len: u8) -> bool {
        prefix_len as int <= address.max_prefix_len()
    }

    /// Every block holds an admissible prefix; the constructor refuses the
    /// others.
    pub open spec fn wf(&self) -> bool {
        Self::prefix_ok(self.address_spec(), self.prefix_len_spec())
    }

    /// Masks `address` with `prefix_len` leading bits.
    ///
    /// Fails exactly when the prefix is longer than the address kind admits:
    /// 32 bits for a version-4 address, 64 for a version-6 one.
    pub fn new(address: IpAddr, prefix_len: u8) -> (r: Result<IpCidr, ()>)
        ensures
            r is Ok <==> Self::prefix_ok(address, prefix_len),
            match r {
                Ok(cidr) => cidr.wf() && cidr.address_spec() == address && cidr.prefix_len_spec()
                    == prefix_len,
                Err(()) => true,
            },
    {
        let limit: u8 = match address {
            IpAddr::V4(_) => 32,
            IpAddr::V6(_) => 64,
        };
        if prefix_len <= limit {
            Ok(IpCidr { address, prefix_len })
        } else {
            Err(())
        }
    }

    /// The block's address.
    pub fn address(&self) -> (r: IpAddr)
        ensures
            r == self.address_spec(),
    {
        self.address
    }

    /// The block's prefix length.
    pub fn prefix_len(&self) -> (r: u8)
        ensures
            r == self.prefix_len_spec(),
    {
        self.prefix_len
    }
}

/// Failure to open a TCP connection.
#[derive(Clone, Copy, Debug, PartialEq, Eq, Structural)]
pub enum ConnectError {
    /// No route is available for the requested destination.
    NoRoute,
}

impl ConnectError {
    /// A human-readable description of the error.
    pub fn message(&self) -> (r: String)
        ensures
            self is NoRoute ==> r@ == "No route available for this destination"@,
    {
        match self {
            ConnectError::NoRoute => "No route available for this destination".to_string(),
        }
    }
}

} // verus!
