use vstd::prelude::*;

use crate::error::{Error, NetworkError, Res};
use crate::packet::{
    be_bytes, be_prefix_value, code_to_be_bytes, decoded_code, decoded_data, decoded_kind,
    is_well_formed, lemma_be_value_of_bytes, lemma_bytes_of_be_value, be_u32, Packet,
};

verus! {

/// Length of the confirmation echo: one big-endian code.
pub const CODE_LEN: usize = 4;

/// How long a sender waits for the confirmation echo, in seconds.
pub const CONFIRMATION_TIMEOUT_SECS: u64 = 5;

/// Upper bound on the bytes read back as a confirmation echo; a longer answer
/// is already a mismatch.
pub const MAX_ECHO_LEN: usize = 64;

/// Upper bound on the bytes read from one inbound exchange.
pub const MAX_EXCHANGE_LEN: usize = 67108864;

/// What came back on an exchange after the packet was sent.
#[derive(Debug, Clone)]
pub enum EchoReply {
    /// The peer answered with these bytes and closed its side.
    Received(Vec<u8>),
    /// Nothing complete arrived within the confirmation timeout.
    TimedOut,
    /// Reading the answer failed; the transport's description.
    ReadFailed(String),
}

/// The verdict on an echo of `echo` for a packet sent with code `expected`:
/// too short is a failure of the exchange; four bytes are compared as a
/// big-endian code; anything longer is a mismatch.
pub open spec fn echo_verdict(expected: u32, echo: Seq<u8>) -> Res<bool> {
    if echo.len() < CODE_LEN {
        Err(Error::NetworkError(NetworkError::MalformedCode))
    } else if echo.len() == CODE_LEN {
        Ok(be_prefix_value(echo) == expected)
    } else {
        Ok(false)
    }
}

/// The verdict on a whole reply.
pub open spec fn reply_verdict(expected: u32, reply: EchoReply) -> Res<bool> {
    match reply {
        EchoReply::Received(echo) => echo_verdict(expected, echo@),
        EchoReply::TimedOut => Err(Error::NetworkError(NetworkError::ConfirmationTimeout)),
        EchoReply::ReadFailed(why) => Err(Error::ConnectionError(why)),
    }
}

/// Judges the bytes echoed for a packet sent with code `expected`.
pub fn judge_echo(expected: u32, echo: &Vec<u8>) -> (r: Res<bool>)
    ensures
        r == echo_verdict(expected, echo@),
{
    if echo.len() < CODE_LEN {
        Err(Error::NetworkError(NetworkError::MalformedCode))
    } else if echo.len() == CODE_LEN {
        Ok(be_u32(echo[0], echo[1], echo[2], echo[3]) == expected)
    } else {
        Ok(false)
    }
}

/// Judges the reply to a sent packet: `Ok(true)` only for its own code echoed,
/// `Ok(false)` for a live peer that answered otherwise, `Err` where no
/// confirmation could be had.
pub fn judge_reply(expected: u32, reply: EchoReply) -> (r: Res<bool>)
    ensures
        r == reply_verdict(expected, reply),
{
    match reply {
        EchoReply::Received(echo) => judge_echo(expected, &echo),
        EchoReply::TimedOut => Err(Error::NetworkError(NetworkError::ConfirmationTimeout)),
        EchoReply::ReadFailed(why) => Err(Error::ConnectionError(why)),
    }
}

/// Confirmation matching: the packet's own code echoed back is a match, any
/// other four bytes a mismatch, and a short echo or a timeout a failure of the
/// exchange rather than a mismatch.
pub proof fn lemma_confirmation_matching(code: u32, echo: Seq<u8>)
    ensures
        echo_verdict(code, be_bytes(code)) == Ok::<bool, Error>(true),
        echo.len() == CODE_LEN && echo != be_bytes(code) ==> echo_verdict(code, echo) == Ok::<
            bool,
            Error,
        >(false),
        echo.len() < CODE_LEN ==> echo_verdict(code, echo) is Err,
        reply_verdict(code, EchoReply::TimedOut) is Err,
{
    lemma_be_value_of_bytes(code);
    if echo.len() == CODE_LEN && echo != be_bytes(code) {
        lemma_bytes_of_be_value(echo[0], echo[1], echo[2], echo[3]);
        assert(echo =~= seq![echo[0], echo[1], echo[2], echo[3]]);
    }
}

/// Answers one inbound exchange: decodes the packet and gives the echo to
/// write back, its code in big-endian order.
pub fn answer_exchange(bytes: Vec<u8>) -> (r: Res<(Vec<u8>, Packet)>)
    ensures
        match r {
            Ok((echo, p)) => {
                &&& is_well_formed(bytes@)
                &&& p.kind == decoded_kind(bytes@)
                &&& p.code == decoded_code(bytes@)
                &&& p.data@ == decoded_data(bytes@)
                &&& echo@ == be_bytes(p.code)
            },
            Err(e) => !is_well_formed(bytes@) && e == Error::NetworkError(
                NetworkError::InvalidPacket,
            ),
        },
{
    match Packet::from_bytes(bytes) {
        Ok(p) => {
            let echo = code_to_be_bytes(p.code);
            Ok((echo, p))
        },
        Err(e) => Err(e),
    }
}

} // verus!
