//! The host intrinsics' data path. A guest calls `nur_log`, `nur_send` and
//! `nur_end` under the `nur` import namespace; each call names a range of
//! the guest's linear memory (for `nur_log` and `nur_send`), which the host
//! copies out and turns into a message on the per-connection channel. The
//! runtime plumbing that receives the calls lives with the caller; this
//! module holds what is decided: the bounds check on the named range and the
//! message each intrinsic posts.

use vstd::prelude::*;

verus! {

/// A message posted by a guest through an intrinsic, consumed by the
/// connection's response writer.
#[derive(Debug)]
pub enum NurWasmMessage {
    Abort,
    LogMessage { log: String },
    SendData { data: Vec<u8> },
}

/// The byte range of guest memory that an intrinsic call names, as the
/// half-open interval to copy: in bounds exactly when both fields are
/// non-negative and the end does not pass the memory's size.
pub fn guest_memory_range(ptr: i32, len: i32, memory_size: u64) -> (r: Option<(u64, u64)>)
    ensures
        match r {
            Some((start, end)) => {
                &&& 0 <= ptr
                &&& 0 <= len
                &&& ptr + len <= memory_size
                &&& start == ptr
                &&& end == ptr + len
            },
            None => ptr < 0 || len < 0 || ptr + len > memory_size,
        },
{
    if ptr < 0 || len < 0 {
        return None;
    }
    let start = ptr as u64;
    let end = start + (len as u64);
    if end <= memory_size {
        Some((start, end))
    } else {
        None
    }
}

/// The text a byte string denotes when read lossily as UTF-8; it depends on
/// the bytes alone.
pub uninterp spec fn lossy_utf8(bytes: Seq<u8>) -> Seq<char>;

/// Relies on String::from_utf8_lossy: decodes the bytes as UTF-8 with
/// replacement characters for invalid sequences; the text is a function of
/// the bytes alone, and empty input gives empty text.
#[verifier::external_body]
fn utf8_lossy(bytes: &Vec<u8>) -> (r: String)
    ensures
        r@ == lossy_utf8(bytes@),
        bytes@.len() == 0 ==> r@.len() == 0,
{
    String::from_utf8_lossy(bytes.as_slice()).to_string()
}

/// The message `nur_log` posts for a copied memory range: the range's bytes
/// read lossily as text.
pub fn log_message(bytes: &Vec<u8>) -> (r: NurWasmMessage)
    ensures
        match r {
            NurWasmMessage::LogMessage { log } => log@ == lossy_utf8(bytes@),
            _ => false,
        },
{
    NurWasmMessage::LogMessage { log: utf8_lossy(bytes) }
}

/// The message `nur_send` posts for a copied memory range: the bytes as
/// they stand.
pub fn send_message(data: Vec<u8>) -> (r: NurWasmMessage)
    ensures
        match r {
            NurWasmMessage::SendData { data: d } => d@ == data@,
            _ => false,
        },
{
    NurWasmMessage::SendData { data }
}

/// The message `nur_end` posts: the abort signal, carrying nothing.
pub fn end_message() -> (r: NurWasmMessage)
    ensures
        r is Abort,
{
    NurWasmMessage::Abort
}

} // verus!
