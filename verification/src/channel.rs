//! Command channel: sequences outgoing commands and correlates responses.
//!
//! Every request carries a fresh 16-bit sequence number, incremented with
//! wraparound before each send; the response must echo that number exactly,
//! and any other value means the channel is desynchronized.

use vstd::prelude::*;
use crate::codec::{spec_decode, spec_encode, encode, decode, FrameError};

verus! {

/// Why a correlated round trip failed.
#[derive(Debug, Clone, Copy, PartialEq, Eq, Structural)]
pub enum ProtocolError {
    /// The response bytes did not parse as a frame.
    Frame(FrameError),
    /// The response parsed but echoed a sequence number other than the one
    /// just sent: the channel state is unreliable.
    Desynchronized,
}

/// The sequence value used after `last`: one more, wrapping at 16 bits.
pub open spec fn wrap_inc(last: u16) -> u16 {
    if last == 0xFFFF {
        0
    } else {
        (last + 1) as u16
    }
}

/// Sequence numbers strictly increase modulo 2^16: each request's number is
/// one more than the previous one, wrapping, and never repeats it.
pub proof fn lemma_sequence_strictly_increases(last: u16)
    ensures
        wrap_inc(last) == (last + 1) % 0x10000,
        wrap_inc(last) != last,
{
}

/// One command channel: the sequence counter for one device session.
pub struct CommandChannel {
    sequence: u16,
}

impl CommandChannel {
    /// The sequence number of the most recently prepared request.
    pub closed spec fn sequence(&self) -> u16 {
        self.sequence
    }

    /// A fresh channel. Its first request will carry sequence 1; the counter
    /// reaches 0 again only after wrapping, and 0 is then a valid value.
    pub fn new() -> (r: Self)
        ensures
            r.sequence() == 0,
    {
        CommandChannel { sequence: 0 }
    }

    /// Take the next sequence number and encode the request frame with it.
    pub fn prepare_request(&mut self, command_id: u32, body: &Vec<u8>) -> (r: Vec<u8>)
        requires
            body@.len() <= 0xFFFF,
        ensures
            final(self).sequence() == wrap_inc(old(self).sequence()),
            r@ == spec_encode(command_id, final(self).sequence(), body@),
    {
        self.sequence = if self.sequence == 0xFFFF {
            0
        } else {
            self.sequence + 1
        };
        encode(command_id, self.sequence, body)
    }

    /// Check a response against the sequence just sent: a frame error is
    /// surfaced as such, a sequence mismatch is rejected as desynchronized,
    /// and only a matching frame yields its payload.
    pub fn accept_response(&self, buf: &Vec<u8>) -> (r: Result<Vec<u8>, ProtocolError>)
        ensures
            match spec_decode(buf@) {
                Err(e) => r == Err::<Vec<u8>, ProtocolError>(ProtocolError::Frame(e)),
                Ok((len, seq, payload)) => {
                    if seq == self.sequence() {
                        r matches Ok(v) && v@ == payload
                    } else {
                        r == Err::<Vec<u8>, ProtocolError>(ProtocolError::Desynchronized)
                    }
                },
            },
    {
        match decode(buf) {
            Err(e) => Err(ProtocolError::Frame(e)),
            Ok((_len, seq, payload)) => {
                if seq == self.sequence {
                    Ok(payload)
                } else {
                    Err(ProtocolError::Desynchronized)
                }
            },
        }
    }
}

} // verus!
