//! Network addresses as plain values: IPv4 and IPv6 addresses with a port,
//! and their textual rendering.

use vstd::prelude::*;

use crate::text::{dec_str, hex_str, push_dec, push_hex};

verus! {

/// An IPv4 address as four octets.
#[derive(Clone, Copy, Debug, PartialEq, Eq, Structural)]
pub struct Ipv4 {
    pub a: u8,
    pub b: u8,
    pub c: u8,
    pub d: u8,
}

/// An IPv6 address as eight 16-bit groups, most significant first.
#[derive(Clone, Copy, Debug, PartialEq, Eq, Structural)]
pub struct Ipv6 {
    pub g0: u16,
    pub g1: u16,
    pub g2: u16,
    pub g3: u16,
    pub g4: u16,
    pub g5: u16,
    pub g6: u16,
    pub g7: u16,
}

/// An IP address of either family.
#[derive(Clone, Copy, Debug, PartialEq, Eq, Structural)]
pub enum IpAddress {
    V4(Ipv4),
    V6(Ipv6),
}

/// A network address: an IP address together with a port.
#[derive(Clone, Copy, Debug, PartialEq, Eq, Structural)]
pub struct NetAddress {
    pub ip: IpAddress,
    pub port: u16,
}

/// The dotted-decimal rendering of an IPv4 address.
pub open spec fn ipv4_str(ip: Ipv4) -> Seq<char> {
    dec_str(ip.a as nat) + seq!['.'] + dec_str(ip.b as nat) + seq!['.'] + dec_str(ip.c as nat)
        + seq!['.'] + dec_str(ip.d as nat)
}

/// The rendering of an IPv6 address: the eight groups in lower-case
/// hexadecimal, without leading zeroes, separated by colons (no zero-run
/// compression).
pub open spec fn ipv6_str(ip: Ipv6) -> Seq<char> {
    hex_str(ip.g0 as nat) + seq![':'] + hex_str(ip.g1 as nat) + seq![':'] + hex_str(ip.g2 as nat)
        + seq![':'] + hex_str(ip.g3 as nat) + seq![':'] + hex_str(ip.g4 as nat) + seq![':']
        + hex_str(ip.g5 as nat) + seq![':'] + hex_str(ip.g6 as nat) + seq![':'] + hex_str(
        ip.g7 as nat,
    )
}

/// The rendering of a network address: `a.b.c.d:port` for IPv4 and
/// `[groups]:port` for IPv6.
pub open spec fn net_address_str(addr: NetAddress) -> Seq<char> {
    match addr.ip {
        IpAddress::V4(ip) => ipv4_str(ip) + seq![':'] + dec_str(addr.port as nat),
        IpAddress::V6(ip) => seq!['['] + ipv6_str(ip) + seq![']'] + seq![':'] + dec_str(
            addr.port as nat,
        ),
    }
}

fn push_char_dot(out: &mut String)
    ensures
        final(out)@ == old(out)@ + seq!['.'],
{
    proof {
        reveal_strlit(".");
    }
    out.append(".");
    proof {
        assert(out@ =~= old(out)@ + seq!['.']);
    }
}

fn push_char_colon(out: &mut String)
    ensures
        final(out)@ == old(out)@ + seq![':'],
{
    proof {
        reveal_strlit(":");
    }
    out.append(":");
    proof {
        assert(out@ =~= old(out)@ + seq![':']);
    }
}

impl NetAddress {
    /// Renders this address as text per `net_address_str`.
    pub fn render(&self) -> (s: String)
        ensures
            s@ == net_address_str(*self),
    {
        let mut out = String::new();
        match self.ip {
            IpAddress::V4(ip) => {
                push_dec(&mut out, ip.a as u64);
                push_char_dot(&mut out);
                push_dec(&mut out, ip.b as u64);
                push_char_dot(&mut out);
                push_dec(&mut out, ip.c as u64);
                push_char_dot(&mut out);
                push_dec(&mut out, ip.d as u64);
                push_char_colon(&mut out);
                push_dec(&mut out, self.port as u64);
                proof {
                    assert(out@ =~= net_address_str(*self));
                }
            },
            IpAddress::V6(ip) => {
                proof {
                    reveal_strlit("[");
                    reveal_strlit("]");
                }
                out.append("[");
                push_hex(&mut out, ip.g0 as u64);
                push_char_colon(&mut out);
                push_hex(&mut out, ip.g1 as u64);
                push_char_colon(&mut out);
                push_hex(&mut out, ip.g2 as u64);
                push_char_colon(&mut out);
                push_hex(&mut out, ip.g3 as u64);
                push_char_colon(&mut out);
                push_hex(&mut out, ip.g4 as u64);
                push_char_colon(&mut out);
                push_hex(&mut out, ip.g5 as u64);
                push_char_colon(&mut out);
                push_hex(&mut out, ip.g6 as u64);
                push_char_colon(&mut out);
                push_hex(&mut out, ip.g7 as u64);
                out.append("]");
                push_char_colon(&mut out);
                push_dec(&mut out, self.port as u64);
                proof {
                    assert(out@ =~= net_address_str(*self));
                }
            },
        }
        out
    }
}

} // verus!
