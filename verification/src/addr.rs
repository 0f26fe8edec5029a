//! Public endpoints and the text form in which their addresses cross the wire.
//!
//! An IPv4 address is written as a dotted quad: four decimal numbers from 0 to
//! 255 without leading zeros, separated by `.`. An IPv6 address is written in
//! brackets: `[`, its eight groups in lower-case hexadecimal without leading
//! zeros, separated by `:`, then `]`. Each address has exactly one text, and
//! only that text is read back.

use vstd::prelude::*;

pub mod text;

pub use text::{lemma_ip_text_injective, parse_ip};

verus! {

/// An IP address, by its parts.
#[derive(Clone, Copy, Debug, PartialEq, Eq, Structural, Hash)]
pub enum IpAddress {
    /// The four octets of an IPv4 address, first octet first.
    V4(u8, u8, u8, u8),
    /// The eight groups of an IPv6 address, first group first.
    V6(u16, u16, u16, u16, u16, u16, u16, u16),
}

/// The address and UDP port by which a peer is reachable, as the server saw
/// them when the session was created.
#[derive(Clone, Copy, Debug, PartialEq, Eq, Structural, Hash)]
pub struct PublicEndpoint {
    pub ip: IpAddress,
    pub port: u16,
}

/// Why the text of an address, or a port, was refused.
#[derive(Clone, Copy, Debug, PartialEq, Eq, Structural)]
pub enum AddrError {
    /// The text is not the text of any address.
    BadIp,
    /// The port does not fit in sixteen bits.
    BadPort,
}

/// `String::push` appends one character.
pub assume_specification[ String::push ](s: &mut String, c: char)
    ensures
        final(s)@ == old(s)@.push(c),
;

// ---------------------------------------------------------------------------
// The text of an address
// ---------------------------------------------------------------------------

/// The character of a digit: `0` to `9`, then `a` to `f`.
pub open spec fn digit_char(d: int) -> char {
    if d < 10 {
        (48 + d) as char
    } else {
        (87 + d) as char
    }
}

/// A number from 0 to 255 in decimal, without leading zeros.
#[verifier::opaque]
pub open spec fn decimal(n: int) -> Seq<char> {
    if n < 10 {
        seq![digit_char(n)]
    } else if n < 100 {
        seq![digit_char(n / 10), digit_char(n % 10)]
    } else {
        seq![digit_char(n / 100), digit_char(n / 10 % 10), digit_char(n % 10)]
    }
}

/// A number from 0 to 65535 in lower-case hexadecimal, without leading zeros.
#[verifier::opaque]
pub open spec fn hexadecimal(n: int) -> Seq<char> {
    if n < 0x10 {
        seq![digit_char(n)]
    } else if n < 0x100 {
        seq![digit_char(n / 0x10), digit_char(n % 0x10)]
    } else if n < 0x1000 {
        seq![digit_char(n / 0x100), digit_char(n / 0x10 % 0x10), digit_char(n % 0x10)]
    } else {
        seq![
            digit_char(n / 0x1000),
            digit_char(n / 0x100 % 0x10),
            digit_char(n / 0x10 % 0x10),
            digit_char(n % 0x10),
        ]
    }
}

/// The text of an address.
pub open spec fn ip_text(ip: IpAddress) -> Seq<char> {
    match ip {
        IpAddress::V4(a, b, c, d) => decimal(a as int) + seq!['.'] + decimal(b as int) + seq!['.']
            + decimal(c as int) + seq!['.'] + decimal(d as int),
        IpAddress::V6(g0, g1, g2, g3, g4, g5, g6, g7) => seq!['['] + hexadecimal(g0 as int)
            + seq![':'] + hexadecimal(g1 as int) + seq![':'] + hexadecimal(g2 as int) + seq![':']
            + hexadecimal(g3 as int) + seq![':'] + hexadecimal(g4 as int) + seq![':']
            + hexadecimal(g5 as int) + seq![':'] + hexadecimal(g6 as int) + seq![':']
            + hexadecimal(g7 as int) + seq![']'],
    }
}

fn digit(d: u8) -> (c: char)
    requires
        d < 16,
    ensures
        c == digit_char(d as int),
{
    if d < 10 {
        (48u8 + d) as char
    } else {
        (87u8 + d) as char
    }
}

fn push_decimal(s: &mut String, n: u8)
    ensures
        final(s)@ == old(s)@ + decimal(n as int),
{
    reveal(decimal);
    if n >= 100 {
        s.push(digit(n / 100));
    }
    if n >= 10 {
        s.push(digit(n / 10 % 10));
    }
    s.push(digit(n % 10));
}

fn push_hexadecimal(s: &mut String, n: u16)
    ensures
        final(s)@ == old(s)@ + hexadecimal(n as int),
{
    reveal(hexadecimal);
    if n >= 0x1000 {
        s.push(digit((n / 0x1000) as u8));
    }
    if n >= 0x100 {
        s.push(digit((n / 0x100 % 0x10) as u8));
    }
    if n >= 0x10 {
        s.push(digit((n / 0x10 % 0x10) as u8));
    }
    s.push(digit((n % 0x10) as u8));
}

impl IpAddress {
    /// Writes the address as text.
    pub fn to_text(&self) -> (s: String)
        ensures
            s@ == ip_text(*self),
    {
        let mut s = String::new();
        match *self {
            IpAddress::V4(a, b, c, d) => {
                push_decimal(&mut s, a);
                s.push('.');
                push_decimal(&mut s, b);
                s.push('.');
                push_decimal(&mut s, c);
                s.push('.');
                push_decimal(&mut s, d);
            },
            IpAddress::V6(g0, g1, g2, g3, g4, g5, g6, g7) => {
                s.push('[');
                push_hexadecimal(&mut s, g0);
                s.push(':');
                push_hexadecimal(&mut s, g1);
                s.push(':');
                push_hexadecimal(&mut s, g2);
                s.push(':');
                push_hexadecimal(&mut s, g3);
                s.push(':');
                push_hexadecimal(&mut s, g4);
                s.push(':');
                push_hexadecimal(&mut s, g5);
                s.push(':');
                push_hexadecimal(&mut s, g6);
                s.push(':');
                push_hexadecimal(&mut s, g7);
                s.push(']');
            },
        }
        assert(s@ =~= ip_text(*self));
        s
    }
}

/// The largest port number.
pub const MAX_PORT: u32 = 65535;

/// Narrows a port from the thirty-two bits in which it crosses the wire to a
/// UDP port. A number above 65535 is refused.
pub fn narrow_port(port: u32) -> (r: Result<u16, AddrError>)
    ensures
        r == if port <= MAX_PORT {
            Ok::<u16, AddrError>(port as u16)
        } else {
            Err::<u16, AddrError>(AddrError::BadPort)
        },
{
    if port <= MAX_PORT {
        Ok(port as u16)
    } else {
        Err(AddrError::BadPort)
    }
}

/// What the text `ip` and the number `port` denote as an endpoint. The text
/// is looked at first: with a bad text the answer is [`AddrError::BadIp`]
/// whatever the port.
pub open spec fn endpoint_of(ip: Seq<char>, port: u32) -> Result<PublicEndpoint, AddrError> {
    if exists|a: IpAddress| ip == #[trigger] ip_text(a) {
        if port <= MAX_PORT {
            Ok(
                PublicEndpoint {
                    ip: choose|a: IpAddress| ip == #[trigger] ip_text(a),
                    port: port as u16,
                },
            )
        } else {
            Err(AddrError::BadPort)
        }
    } else {
        Err(AddrError::BadIp)
    }
}

/// An endpoint written on the wire and read back is the same endpoint.
pub proof fn lemma_endpoint_round_trip(endpoint: PublicEndpoint)
    ensures
        endpoint_of(ip_text(endpoint.ip), endpoint.port as u32) == Ok::<PublicEndpoint, AddrError>(
            endpoint,
        ),
{
    let a = choose|a: IpAddress| ip_text(endpoint.ip) == #[trigger] ip_text(a);
    lemma_ip_text_injective(a, endpoint.ip);
}

} // verus!
