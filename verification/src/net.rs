//! IP addresses as the library holds them.
//!
//! Parsing an IP literal is left to `std::net` where the text is read; the
//! library takes the address it yields. Writing an IPv4 address back is the
//! dotted decimal form, which is stated and written here.
use crate::decimal::{decimal, decimal_text};
use vstd::prelude::*;

verus! {

/// An IPv4 address, as its four octets.
#[derive(Debug, Clone, Copy, PartialEq, Eq, Structural)]
pub struct Ipv4(pub u8, pub u8, pub u8, pub u8);

/// An IPv6 address, as its 128 bits in network order.
#[derive(Debug, Clone, Copy, PartialEq, Eq, Structural)]
pub struct Ipv6(pub u128);

#[derive(Debug, Clone, Copy, PartialEq, Eq, Structural)]
pub enum IpAddress {
    V4(Ipv4),
    V6(Ipv6),
}

/// An IPv4 address in dotted decimal, as `std::net::Ipv4Addr` displays it.
pub open spec fn ipv4_text(a: Ipv4) -> Seq<char> {
    decimal_text(a.0 as nat) + "."@ + decimal_text(a.1 as nat) + "."@ + decimal_text(a.2 as nat)
        + "."@ + decimal_text(a.3 as nat)
}

impl Ipv4 {
    /// The address in dotted decimal.
    pub fn to_text(&self) -> (s: String)
        ensures
            s@ == ipv4_text(*self),
    {
        decimal(self.0 as u64).concat(".").concat(decimal(self.1 as u64).as_str()).concat(
            ".",
        ).concat(decimal(self.2 as u64).as_str()).concat(".").concat(decimal(self.3 as u64).as_str())
    }
}

/// Whether an IPv6 address is an IPv4 address mapped into IPv6
/// (`::ffff:a.b.c.d`).
pub open spec fn v4_mapped(x: u128) -> bool {
    x / 0x1_0000_0000 == 0xffff
}

/// The address in its canonical form: an IPv4-mapped IPv6 address as the IPv4
/// address it maps, anything else as it is.
pub open spec fn canonical_spec(ip: IpAddress) -> IpAddress {
    match ip {
        IpAddress::V6(Ipv6(x)) => if v4_mapped(x) {
            let low = x % 0x1_0000_0000;
            IpAddress::V4(
                Ipv4(
                    (low / 0x100_0000) as u8,
                    ((low / 0x1_0000) % 0x100) as u8,
                    ((low / 0x100) % 0x100) as u8,
                    (low % 0x100) as u8,
                ),
            )
        } else {
            ip
        },
        _ => ip,
    }
}

impl IpAddress {
    /// The address in its canonical form: IPv4-mapped IPv6 addresses are
    /// unmapped, as `IpAddr::to_canonical` does.
    pub fn canonical(self) -> (r: IpAddress)
        ensures
            r == canonical_spec(self),
    {
        match self {
            IpAddress::V6(Ipv6(x)) => {
                if x / 0x1_0000_0000 == 0xffff {
                    let low = x % 0x1_0000_0000;
                    IpAddress::V4(
                        Ipv4(
                            (low / 0x100_0000) as u8,
                            ((low / 0x1_0000) % 0x100) as u8,
                            ((low / 0x100) % 0x100) as u8,
                            (low % 0x100) as u8,
                        ),
                    )
                } else {
                    self
                }
            },
            IpAddress::V4(_) => self,
        }
    }
}

} // verus!
