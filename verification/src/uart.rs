//! Messages queued for the UART transmitter.

use vstd::prelude::*;
use vstd::string::*;

use crate::text::{text_as_str, text_bytes};

verus! {

/// One message for the UART transmitter: a fixed text, a formatted text, or
/// a single byte (the echo of a received byte).
pub enum UartTxMsg {
    Static(&'static str),
    Dyn(heapless::String<64>),
    Byte(u8),
}

/// The bytes the transmitter writes for a message.
pub open spec fn msg_bytes(m: UartTxMsg) -> Seq<u8> {
    match m {
        UartTxMsg::Static(s) => s.spec_bytes(),
        UartTxMsg::Dyn(t) => text_bytes(t),
        UartTxMsg::Byte(b) => seq![b],
    }
}

/// `core::slice::from_ref`: the one-element slice holding `*b`.
#[verifier::external_body]
fn byte_slice(b: &u8) -> (s: &[u8])
    ensures
        s@ == seq![*b],
{
    core::slice::from_ref(b)
}

impl UartTxMsg {
    /// The bytes to write on the wire.
    pub fn as_bytes(&self) -> (b: &[u8])
        ensures
            b@ == msg_bytes(*self),
    {
        match self {
            UartTxMsg::Static(message) => message.as_bytes(),
            UartTxMsg::Dyn(message) => text_as_str(message).as_bytes(),
            UartTxMsg::Byte(byte) => byte_slice(byte),
        }
    }
}

impl From<&'static str> for UartTxMsg {
    fn from(message: &'static str) -> (m: UartTxMsg) {
        UartTxMsg::Static(message)
    }
}

impl vstd::std_specs::convert::FromSpecImpl<&'static str> for UartTxMsg {
    open spec fn obeys_from_spec() -> bool {
        true
    }

    open spec fn from_spec(v: &'static str) -> UartTxMsg {
        UartTxMsg::Static(v)
    }
}

impl From<u8> for UartTxMsg {
    fn from(byte: u8) -> (m: UartTxMsg) {
        UartTxMsg::Byte(byte)
    }
}

impl vstd::std_specs::convert::FromSpecImpl<u8> for UartTxMsg {
    open spec fn obeys_from_spec() -> bool {
        true
    }

    open spec fn from_spec(v: u8) -> UartTxMsg {
        UartTxMsg::Byte(v)
    }
}

impl From<heapless::String<64>> for UartTxMsg {
    fn from(message: heapless::String<64>) -> (m: UartTxMsg) {
        UartTxMsg::Dyn(message)
    }
}

impl vstd::std_specs::convert::FromSpecImpl<heapless::String<64>> for UartTxMsg {
    open spec fn obeys_from_spec() -> bool {
        true
    }

    open spec fn from_spec(v: heapless::String<64>) -> UartTxMsg {
        UartTxMsg::Dyn(v)
    }
}

} // verus!
