//! The two-variant IP address leaf: a version tag followed by either four
//! octets (IPv4) or eight big-endian 16-bit groups (IPv6).

use vstd::prelude::*;

use crate::error::Error;
use crate::types::ByteCursor;
use crate::types::ReadSeeker;
use crate::utils::Decodeable;
use crate::utils::ReadBytesLocal;
use crate::wire::be_u16;
use crate::wire::decode_post;
use crate::wire::step_bind;
use crate::wire::Step;

verus! {

/// An agent or flow endpoint address: four octets for IPv4, eight 16-bit
/// groups for IPv6, each kept in the order they stand on the wire.
#[derive(Debug, Clone, Copy, PartialEq, Eq, Structural)]
pub enum IPAddress {
    IPv4(u8, u8, u8, u8),
    IPv6(u16, u16, u16, u16, u16, u16, u16, u16),
}

impl Default for IPAddress {
    /// The unspecified IPv4 address.
    fn default() -> (r: IPAddress)
        ensures
            r == IPAddress::IPv4(0, 0, 0, 0),
    {
        IPAddress::IPv4(0, 0, 0, 0)
    }
}

impl DeepView for IPAddress {
    type V = IPAddress;

    open spec fn deep_view(&self) -> IPAddress {
        *self
    }
}

/// The four raw octets of an IPv4 address at position `p` of `b`.
pub open spec fn sdecode_ipv4(b: Seq<u8>, p: int) -> Step<IPAddress> {
    if p + 4 <= b.len() {
        Step::Done { v: IPAddress::IPv4(b[p], b[p + 1], b[p + 2], b[p + 3]), next: p + 4 }
    } else {
        Step::Fail { err: Error::Truncated }
    }
}

/// The eight big-endian 16-bit groups of an IPv6 address at position `p` of `b`.
pub open spec fn sdecode_ipv6(b: Seq<u8>, p: int) -> Step<IPAddress> {
    if p + 16 <= b.len() {
        Step::Done {
            v: IPAddress::IPv6(
                be_u16(b, p),
                be_u16(b, p + 2),
                be_u16(b, p + 4),
                be_u16(b, p + 6),
                be_u16(b, p + 8),
                be_u16(b, p + 10),
                be_u16(b, p + 12),
                be_u16(b, p + 14),
            ),
            next: p + 16,
        }
    } else {
        Step::Fail { err: Error::Truncated }
    }
}

fn decode_ipv4(stream: &mut ByteCursor) -> (r: Result<IPAddress, Error>)
    ensures
        decode_post::<IPAddress>(
            *old(stream),
            *final(stream),
            r,
            sdecode_ipv4(old(stream).bytes(), old(stream).pos()),
        ),
{
    let b0 = match stream.read_u8() {
        Ok(v) => v,
        Err(e) => return Err(e),
    };
    let b1 = match stream.read_u8() {
        Ok(v) => v,
        Err(e) => return Err(e),
    };
    let b2 = match stream.read_u8() {
        Ok(v) => v,
        Err(e) => return Err(e),
    };
    let b3 = match stream.read_u8() {
        Ok(v) => v,
        Err(e) => return Err(e),
    };
    Ok(IPAddress::IPv4(b0, b1, b2, b3))
}

fn decode_ipv6(stream: &mut ByteCursor) -> (r: Result<IPAddress, Error>)
    ensures
        decode_post::<IPAddress>(
            *old(stream),
            *final(stream),
            r,
            sdecode_ipv6(old(stream).bytes(), old(stream).pos()),
        ),
{
    let g0 = match stream.be_read_u16() {
        Ok(v) => v,
        Err(e) => return Err(e),
    };
    let g1 = match stream.be_read_u16() {
        Ok(v) => v,
        Err(e) => return Err(e),
    };
    let g2 = match stream.be_read_u16() {
        Ok(v) => v,
        Err(e) => return Err(e),
    };
    let g3 = match stream.be_read_u16() {
        Ok(v) => v,
        Err(e) => return Err(e),
    };
    let g4 = match stream.be_read_u16() {
        Ok(v) => v,
        Err(e) => return Err(e),
    };
    let g5 = match stream.be_read_u16() {
        Ok(v) => v,
        Err(e) => return Err(e),
    };
    let g6 = match stream.be_read_u16() {
        Ok(v) => v,
        Err(e) => return Err(e),
    };
    let g7 = match stream.be_read_u16() {
        Ok(v) => v,
        Err(e) => return Err(e),
    };
    Ok(IPAddress::IPv6(g0, g1, g2, g3, g4, g5, g6, g7))
}

impl Decodeable for IPAddress {
    open spec fn sdecode(b: Seq<u8>, p: int) -> Step<IPAddress> {
        step_bind(
            u32::sdecode(b, p),
            |tag: u32, p1: int|
                {
                    if tag == 1 {
                        sdecode_ipv4(b, p1)
                    } else if tag == 2 {
                        sdecode_ipv6(b, p1)
                    } else {
                        Step::Fail { err: Error::UnknownIpVersion(tag) }
                    }
                },
        )
    }

    open spec fn spec_wire_unit() -> int {
        4
    }

    fn wire_unit() -> (u: usize) {
        4
    }

    fn read_and_decode(stream: &mut ByteCursor) -> (r: Result<IPAddress, Error>) {
        let tag = match stream.be_read_u32() {
            Ok(v) => v,
            Err(e) => return Err(e),
        };
        match tag {
            1 => decode_ipv4(stream),
            2 => decode_ipv6(stream),
            _ => Err(Error::UnknownIpVersion(tag)),
        }
    }
}

} // verus!
