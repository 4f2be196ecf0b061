//! The failure taxonomy of the decoder.

use vstd::prelude::*;

verus! {

/// Why a decode call failed.
///
/// `UnknownType` is the one recoverable outcome: the unrecognized record has
/// already been skipped and the cursor sits just past it, so sibling records
/// remain decodable. Every other variant is fatal for the containing decode.
#[derive(Debug, Clone, Copy, PartialEq, Eq, Structural)]
pub enum Error {
    /// Fewer bytes remained than the field or record required, or the cursor
    /// position would have left the addressable range.
    Truncated,
    /// The payload of a length-prefixed string was not valid UTF-8.
    Utf8,
    /// A record header named a format code with no entry in the family's
    /// table; the declared number of payload bytes has been skipped.
    UnknownType { format: u32, length: u32 },
    /// An IP address carried a version tag other than 1 (IPv4) or 2 (IPv6).
    UnknownIpVersion(u32),
}

} // verus!
