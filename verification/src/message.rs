//! The known-good payload that every self-test cycle sends.

use crate::bounded::{payload_as_str, payload_bytes, payload_from_str, MESSAGE_CAPACITY};
use vstd::prelude::*;
use vstd::string::StringSliceAdditionalSpecFns;

verus! {

/// The fixed message of the self-test: a short piece of text, decided once
/// and read-only afterwards. Its view is the byte sequence that goes out on
/// the wire, which is the UTF-8 encoding of the text.
#[derive(Debug)]
pub struct SelfTestMessage {
    payload: heapless::String<5>,
}

impl View for SelfTestMessage {
    type V = Seq<u8>;

    closed spec fn view(&self) -> Seq<u8> {
        payload_bytes(self.payload)
    }
}

impl SelfTestMessage {
    #[verifier::type_invariant]
    spec fn inv(&self) -> bool {
        self@.len() <= MESSAGE_CAPACITY
    }

    /// Builds the message from `text`, which must fit the payload capacity;
    /// text that is too long gives `None`.
    pub fn from_text(text: &str) -> (message: Option<Self>)
        ensures
            match message {
                Some(m) => text.spec_bytes().len() <= MESSAGE_CAPACITY && m@ == text.spec_bytes(),
                None => text.spec_bytes().len() > MESSAGE_CAPACITY,
            },
    {
        if text.as_bytes().len() <= MESSAGE_CAPACITY {
            Some(SelfTestMessage { payload: payload_from_str(text) })
        } else {
            None
        }
    }

    /// The message as text.
    pub fn as_str(&self) -> (text: &str)
        ensures
            text.spec_bytes() == self@,
            self@.len() <= MESSAGE_CAPACITY,
    {
        proof {
            use_type_invariant(self);
        }
        payload_as_str(&self.payload)
    }

    /// The bytes to transmit, in order.
    pub fn as_bytes(&self) -> (bytes: &[u8])
        ensures
            bytes@ == self@,
            self@.len() <= MESSAGE_CAPACITY,
    {
        proof {
            use_type_invariant(self);
        }
        payload_as_str(&self.payload).as_bytes()
    }

    /// Number of bytes in the message.
    pub fn len(&self) -> (n: usize)
        ensures
            n == self@.len(),
            n <= MESSAGE_CAPACITY,
    {
        proof {
            use_type_invariant(self);
        }
        payload_as_str(&self.payload).as_bytes().len()
    }

    /// Whether the message holds no byte at all.
    pub fn is_empty(&self) -> (empty: bool)
        ensures
            empty == (self@.len() == 0),
    {
        payload_as_str(&self.payload).as_bytes().len() == 0
    }
}

} // verus!
