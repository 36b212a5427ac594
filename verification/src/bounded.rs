//! The fixed-capacity containers the self-test lives in, and what is taken on
//! trust about them.
//!
//! The containers come from `heapless`. Their insides are invisible to the
//! verifier, so each one gets a name for the bytes it holds, and every call
//! into the crate is a small wrapper whose contract restates what the crate's
//! source does to those bytes. Nothing in this file is proved; the rest of the
//! library is proved from it.

use vstd::prelude::*;
use vstd::string::StringSliceAdditionalSpecFns;

verus! {

/// Most bytes a self-test message can hold.
pub const MESSAGE_CAPACITY: usize = 5;

/// Most bytes a rendered status line can hold.
pub const LINE_CAPACITY: usize = 30;

/// `heapless::Vec`, carried through as an opaque value.
#[verifier::external_type_specification]
#[verifier::external_body]
#[verifier::reject_recursive_types(T)]
pub struct ExFixedVec<T, const N: usize>(heapless::Vec<T, N>);

/// `heapless::String`, carried through as an opaque value.
#[verifier::external_type_specification]
#[verifier::external_body]
pub struct ExFixedString<const N: usize>(heapless::String<N>);

/// The bytes a receive buffer holds, first pushed first.
pub uninterp spec fn buffer_bytes(buffer: heapless::Vec<u8, 5>) -> Seq<u8>;

/// The UTF-8 bytes of a message payload.
pub uninterp spec fn payload_bytes(payload: heapless::String<5>) -> Seq<u8>;

/// The UTF-8 bytes of a status line.
pub uninterp spec fn line_bytes(line: heapless::String<30>) -> Seq<u8>;

/// `heapless::Vec::new`: a buffer that holds nothing.
#[verifier::external_body]
pub(crate) fn buffer_new() -> (buffer: heapless::Vec<u8, 5>)
    ensures
        buffer_bytes(buffer) == Seq::<u8>::empty(),
{
    heapless::Vec::new()
}

/// `heapless::Vec::push`: appends the byte while the buffer is below its
/// capacity; a full buffer is left as it was and the byte is handed back.
/// The call never panics.
#[verifier::external_body]
pub(crate) fn buffer_push(buffer: &mut heapless::Vec<u8, 5>, byte: u8) -> (result: Result<(), u8>)
    ensures
        match result {
            Ok(_) => buffer_bytes(*old(buffer)).len() < MESSAGE_CAPACITY && buffer_bytes(
                *final(buffer),
            ) == buffer_bytes(*old(buffer)).push(byte),
            Err(back) => buffer_bytes(*old(buffer)).len() >= MESSAGE_CAPACITY && back == byte
                && buffer_bytes(*final(buffer)) == buffer_bytes(*old(buffer)),
        },
    no_unwind
{
    buffer.push(byte)
}

/// `heapless::Vec::as_slice`: the held bytes as a slice.
#[verifier::external_body]
pub(crate) fn buffer_as_slice(buffer: &heapless::Vec<u8, 5>) -> (bytes: &[u8])
    ensures
        bytes@ == buffer_bytes(*buffer),
{
    buffer.as_slice()
}

/// `heapless::String::from(&str)` at capacity 5: a payload with the bytes of
/// `text`. The crate panics when the text does not fit, so that is ruled out.
#[verifier::external_body]
pub(crate) fn payload_from_str(text: &str) -> (payload: heapless::String<5>)
    requires
        text.spec_bytes().len() <= MESSAGE_CAPACITY,
    ensures
        payload_bytes(payload) == text.spec_bytes(),
{
    heapless::String::from(text)
}

/// `heapless::String::as_str` at capacity 5: the payload as text.
#[verifier::external_body]
pub(crate) fn payload_as_str(payload: &heapless::String<5>) -> (text: &str)
    ensures
        text.spec_bytes() == payload_bytes(*payload),
{
    payload.as_str()
}

/// `heapless::String::from(&str)` at capacity 30: a line with the bytes of
/// `text`. The crate panics when the text does not fit, so that is ruled out.
#[verifier::external_body]
pub(crate) fn line_from_str(text: &str) -> (line: heapless::String<30>)
    requires
        text.spec_bytes().len() <= LINE_CAPACITY,
    ensures
        line_bytes(line) == text.spec_bytes(),
{
    heapless::String::from(text)
}

/// `heapless::String::push_str`: appends the bytes of `text` when the result
/// fits the capacity; otherwise the line is left as it was and the call fails.
#[verifier::external_body]
pub(crate) fn line_push_str(line: &mut heapless::String<30>, text: &str) -> (result: Result<(), ()>)
    ensures
        match result {
            Ok(_) => line_bytes(*old(line)).len() + text.spec_bytes().len() <= LINE_CAPACITY
                && line_bytes(*final(line)) == line_bytes(*old(line)) + text.spec_bytes(),
            Err(_) => line_bytes(*old(line)).len() + text.spec_bytes().len() > LINE_CAPACITY
                && line_bytes(*final(line)) == line_bytes(*old(line)),
        },
{
    line.push_str(text)
}

/// `heapless::String::as_str` at capacity 30: the line as text.
#[verifier::external_body]
pub(crate) fn line_as_str(line: &heapless::String<30>) -> (text: &str)
    ensures
        text.spec_bytes() == line_bytes(*line),
{
    line.as_str()
}

/// `heapless::String::clear`: the line holds nothing afterwards. The call
/// never panics.
#[verifier::external_body]
pub(crate) fn line_clear(line: &mut heapless::String<30>)
    ensures
        line_bytes(*final(line)) == Seq::<u8>::empty(),
    no_unwind
{
    line.clear()
}

} // verus!
