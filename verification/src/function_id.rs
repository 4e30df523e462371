//! Function identifiers. A function is named by a 128-bit UUID; the gateway
//! transmits it as 16 big-endian bytes, and the worker renders it in the
//! hyphenated lowercase hexadecimal form that the object-store keys and the
//! on-disk cache file names use.

use vstd::prelude::*;
use crate::bytes::{be_bytes, be_value, lemma_be_bytes_of_be_value, lemma_be_value_bound, pow256};

verus! {

/// The lowercase hexadecimal digit (as an ASCII byte) for a value below 16.
pub open spec fn hex_digit(n: u8) -> u8 {
    if n < 10 {
        (48 + n) as u8
    } else {
        (87 + n) as u8
    }
}

/// The hyphen that precedes byte `i` in the hyphenated UUID form: bytes are
/// grouped 4-2-2-2-6.
pub open spec fn sep_before(i: int) -> Seq<u8> {
    if i == 4 || i == 6 || i == 8 || i == 10 {
        seq![45u8]
    } else {
        Seq::empty()
    }
}

/// The hyphenated rendering of the first `n` bytes of a UUID.
pub open spec fn hyphenated_prefix(b: Seq<u8>, n: int) -> Seq<u8>
    decreases n,
{
    if n <= 0 {
        Seq::empty()
    } else {
        hyphenated_prefix(b, n - 1) + sep_before(n - 1) + seq![
            hex_digit(b[n - 1] / 16),
            hex_digit(b[n - 1] % 16),
        ]
    }
}

/// The hyphenated lowercase hexadecimal form of a 16-byte UUID, as text.
pub open spec fn uuid_hyphenated(b: Seq<u8>) -> Seq<char> {
    hyphenated_prefix(b, 16).map_values(|c: u8| c as char)
}

/// Relies on String::from_utf8: bytes below 128 are one-byte UTF-8 and
/// decode to the characters with the same code points.
#[verifier::external_body]
fn ascii_to_string(bytes: Vec<u8>) -> (r: String)
    requires
        forall|i: int| 0 <= i < bytes@.len() ==> bytes@[i] < 128,
    ensures
        r@.len() == bytes@.len(),
        forall|i: int| 0 <= i < bytes@.len() ==> r@[i] == bytes@[i] as char,
{
    String::from_utf8(bytes).unwrap_or_default()
}

fn hex_digit_exec(n: u8) -> (r: u8)
    requires
        n < 16,
    ensures
        r == hex_digit(n),
        r < 128,
{
    if n < 10 {
        48 + n
    } else {
        87 + n
    }
}

/// Renders a UUID given as 16 big-endian bytes in its hyphenated lowercase
/// hexadecimal form.
pub fn uuid_from_be_bytes(bytes: &[u8]) -> (r: String)
    requires
        bytes@.len() == 16,
    ensures
        r@ == uuid_hyphenated(bytes@),
{
    let mut out: Vec<u8> = Vec::new();
    let mut i: usize = 0;
    while i < 16
        invariant
            bytes@.len() == 16,
            i <= 16,
            out@ == hyphenated_prefix(bytes@, i as int),
            forall|k: int| 0 <= k < out@.len() ==> out@[k] < 128,
        decreases 16 - i,
    {
        if i == 4 || i == 6 || i == 8 || i == 10 {
            out.push(45);
        }
        let b = bytes[i];
        out.push(hex_digit_exec(b / 16));
        out.push(hex_digit_exec(b % 16));
        proof {
            assert(out@ =~= hyphenated_prefix(bytes@, i + 1 as int));
        }
        i = i + 1;
    }
    let r = ascii_to_string(out);
    proof {
        assert(r@ =~= uuid_hyphenated(bytes@));
    }
    r
}

/// Relies on uuid::Uuid::from_str (which accepts the hyphenated hexadecimal
/// form, bytes big-endian) and uuid::Uuid::as_u128 (the big-endian value of
/// the bytes): the hyphenated rendering of a value parses back to it.
#[verifier::external_body]
fn parse_uuid_str(s: &str) -> (r: Option<u128>)
    ensures
        forall|u: u128| s@ == uuid_hyphenated(be_bytes(u as nat, 16)) ==> r == Some(u),
{
    <uuid::Uuid as std::str::FromStr>::from_str(s).ok().map(|u| u.as_u128())
}

/// Decodes the 16 big-endian UUID bytes of a handshake header into the
/// 128-bit function id, going through the textual form exactly as the wire
/// handling does. Always succeeds, with the bytes' big-endian value.
pub fn decode_function_uuid(bytes: &[u8]) -> (r: u128)
    requires
        bytes@.len() == 16,
    ensures
        r as nat == be_value(bytes@),
{
    let s = uuid_from_be_bytes(bytes);
    proof {
        lemma_be_value_bound(bytes@);
        assert(pow256(16) == 0x100000000000000000000000000000000) by {
            reveal_with_fuel(pow256, 18);
        }
        lemma_be_bytes_of_be_value(bytes@);
    }
    let parsed = parse_uuid_str(s.as_str());
    match parsed {
        Some(u) => u,
        None => unreached(),
    }
}

/// The object-store key under which a function's compressed Wasm lives.
pub fn origin_object_key(bytes: &[u8]) -> (r: String)
    requires
        bytes@.len() == 16,
    ensures
        r@ == "builds/"@ + uuid_hyphenated(bytes@) + ".wasm.zst"@,
{
    let mut s = String::from_str("builds/");
    s.append(uuid_from_be_bytes(bytes).as_str());
    s.append(".wasm.zst");
    s
}

/// The path of a function's L2 cache file under the cache directory.
pub fn l2_cache_path(cache_dir: &str, bytes: &[u8]) -> (r: String)
    requires
        bytes@.len() == 16,
    ensures
        r@ == cache_dir@ + "/"@ + uuid_hyphenated(bytes@) + ".wasm.bin"@,
{
    let mut s = String::from_str(cache_dir);
    s.append("/");
    s.append(uuid_from_be_bytes(bytes).as_str());
    s.append(".wasm.bin");
    s
}

} // verus!
