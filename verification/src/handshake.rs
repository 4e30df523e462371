//! The gateway handshake. A fresh connection opens with a fixed 25-byte
//! header: one version byte (only 1 is accepted), the 16-byte big-endian
//! function UUID, and the 8-byte big-endian deployment timestamp in seconds.
//! The worker answers with exactly one status byte; after the OK byte the
//! connection's remaining bytes are the request body, fed to the guest
//! verbatim.

use vstd::prelude::*;
use vstd::slice::slice_subrange;
use crate::artifact::FetchedFunction;
use crate::bytes::{be_value, lemma_be_value_bound, pow256};
use crate::function_id::decode_function_uuid;

verus! {

/// The status byte for an accepted handshake.
pub const HANDSHAKE_OK: u8 = 0;

/// The status byte for a short or malformed header, including an
/// unsupported version.
pub const HANDSHAKE_MALFORMED: u8 = 1;

/// The status byte when the named function cannot be fetched.
pub const HANDSHAKE_NOT_FOUND: u8 = 2;

/// The one protocol version this worker accepts.
pub const SUPPORTED_VERSION: u8 = 1;

/// The handshake header's length on the wire.
pub const HEADER_LEN: usize = 25;

/// What a received header denotes: the named function and its deployment
/// timestamp, or a malformed greeting.
#[derive(Clone, Copy, Debug, PartialEq, Eq, Structural)]
pub enum HeaderParse {
    Malformed,
    Header { function_id: u128, last_deployment_timestamp: u64 },
}

/// The meaning of the bytes that opened a connection: fewer than 25 bytes
/// (a short read) or a version other than 1 is malformed; otherwise the two
/// big-endian fields follow the version byte.
pub open spec fn spec_parse_header(s: Seq<u8>) -> HeaderParse {
    if s.len() < 25 {
        HeaderParse::Malformed
    } else if s[0] != SUPPORTED_VERSION {
        HeaderParse::Malformed
    } else {
        HeaderParse::Header {
            function_id: be_value(s.subrange(1, 17)) as u128,
            last_deployment_timestamp: be_value(s.subrange(17, 25)) as u64,
        }
    }
}

/// Parses the bytes that opened a connection as a handshake header.
pub fn parse_header(bytes: &[u8]) -> (r: HeaderParse)
    ensures
        r == spec_parse_header(bytes@),
{
    if bytes.len() < HEADER_LEN {
        return HeaderParse::Malformed;
    }
    if bytes[0] != SUPPORTED_VERSION {
        return HeaderParse::Malformed;
    }
    let uuid_bytes = slice_subrange(bytes, 1, 17);
    let function_id = decode_function_uuid(uuid_bytes);
    let ts_bytes = slice_subrange(bytes, 17, 25);
    let last_deployment_timestamp = crate::bytes::parse_be_u64(ts_bytes);
    proof {
        lemma_be_value_bound(bytes@.subrange(17, 25));
        assert(pow256(8) == 0x10000000000000000) by {
            reveal_with_fuel(pow256, 10);
        }
    }
    HeaderParse::Header { function_id, last_deployment_timestamp }
}

/// A finished handshake: the function to run and its fetched artifact.
pub struct HandshakeSuccess {
    /// Function uuid to run.
    pub function_uuid: u128,
    /// Fetched Wasm module to run, possibly precompiled.
    pub fetched_func: FetchedFunction,
}

} // verus!
