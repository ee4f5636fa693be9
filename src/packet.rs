use vstd::prelude::*;
use vstd::utf8::encode_utf8;

use crate::error::{Error, NetworkError, Res};

verus! {

/// Number of bytes before a packet's payload: the kind tag and the code.
pub const HEADER_LEN: usize = 5;

/// The kind of an application message, carried in the first byte on the wire.
#[derive(Debug, Clone, Copy, PartialEq, Eq, Structural)]
pub enum PacketType {
    Username,
    Message,
    Image,
}

/// The wire tag of a packet kind.
pub open spec fn kind_tag(kind: PacketType) -> u8 {
    match kind {
        PacketType::Username => 0,
        PacketType::Message => 1,
        PacketType::Image => 2,
    }
}

/// Whether a byte is the tag of some packet kind.
pub open spec fn is_kind_tag(byte: u8) -> bool {
    byte <= 2
}

/// The packet kind that a valid tag stands for.
pub open spec fn kind_of_tag(byte: u8) -> PacketType {
    if byte == 0 {
        PacketType::Username
    } else if byte == 1 {
        PacketType::Message
    } else {
        PacketType::Image
    }
}

/// Whether packets of this kind take part in the confirm / fail protocol.
pub open spec fn kind_is_verifiable(kind: PacketType) -> bool {
    kind != PacketType::Username
}

/// The four big-endian bytes of a 32-bit value.
pub open spec fn be_bytes(v: u32) -> Seq<u8> {
    seq![(v >> 24u32) as u8, (v >> 16u32) as u8, (v >> 8u32) as u8, v as u8]
}

/// The 32-bit value whose big-endian bytes are `b0 b1 b2 b3`.
pub open spec fn be_value(b0: u8, b1: u8, b2: u8, b3: u8) -> u32 {
    ((b0 as u32) << 24u32) | ((b1 as u32) << 16u32) | ((b2 as u32) << 8u32) | (b3 as u32)
}

/// The big-endian value of the first four bytes of `b`.
pub open spec fn be_prefix_value(b: Seq<u8>) -> u32
    recommends
        b.len() >= 4,
{
    be_value(b[0], b[1], b[2], b[3])
}

/// The wire form of a packet: tag, big-endian code, then the payload.
pub open spec fn packet_bytes(kind: PacketType, code: u32, data: Seq<u8>) -> Seq<u8> {
    seq![kind_tag(kind)] + be_bytes(code) + data
}

/// Whether a buffer decodes to a packet: a header is present and its tag is known.
pub open spec fn is_well_formed(b: Seq<u8>) -> bool {
    b.len() >= HEADER_LEN && is_kind_tag(b[0])
}

/// The kind of the packet that a well-formed buffer holds.
pub open spec fn decoded_kind(b: Seq<u8>) -> PacketType {
    kind_of_tag(b[0])
}

/// The code of the packet that a well-formed buffer holds.
pub open spec fn decoded_code(b: Seq<u8>) -> u32 {
    be_value(b[1], b[2], b[3], b[4])
}

/// The payload of the packet that a well-formed buffer holds.
pub open spec fn decoded_data(b: Seq<u8>) -> Seq<u8> {
    b.subrange(HEADER_LEN as int, b.len() as int)
}

/// Reading back the big-endian bytes of a value gives the value.
pub proof fn lemma_be_value_of_bytes(v: u32)
    ensures
        be_value(be_bytes(v)[0], be_bytes(v)[1], be_bytes(v)[2], be_bytes(v)[3]) == v,
{
    let b0 = (v >> 24u32) as u8;
    let b1 = (v >> 16u32) as u8;
    let b2 = (v >> 8u32) as u8;
    let b3 = v as u8;
    assert(((b0 as u32) << 24u32) | ((b1 as u32) << 16u32) | ((b2 as u32) << 8u32) | (b3 as u32)
        == v) by (bit_vector)
        requires
            b0 == (v >> 24u32) as u8,
            b1 == (v >> 16u32) as u8,
            b2 == (v >> 8u32) as u8,
            b3 == v as u8,
    ;
}

/// Four bytes are the big-endian bytes of their own value.
pub proof fn lemma_bytes_of_be_value(b0: u8, b1: u8, b2: u8, b3: u8)
    ensures
        be_bytes(be_value(b0, b1, b2, b3)) == seq![b0, b1, b2, b3],
{
    let v = be_value(b0, b1, b2, b3);
    assert((v >> 24u32) as u8 == b0 && (v >> 16u32) as u8 == b1 && (v >> 8u32) as u8 == b2
        && v as u8 == b3) by (bit_vector)
        requires
            v == ((b0 as u32) << 24u32) | ((b1 as u32) << 16u32) | ((b2 as u32) << 8u32) | (
            b3 as u32),
    ;
    assert(be_bytes(v) =~= seq![b0, b1, b2, b3]);
}

/// Round trip: the wire form of any packet decodes to that same packet.
pub proof fn lemma_round_trip(kind: PacketType, code: u32, data: Seq<u8>)
    ensures
        is_well_formed(packet_bytes(kind, code, data)),
        decoded_kind(packet_bytes(kind, code, data)) == kind,
        decoded_code(packet_bytes(kind, code, data)) == code,
        decoded_data(packet_bytes(kind, code, data)) == data,
{
    let b = packet_bytes(kind, code, data);
    lemma_be_value_of_bytes(code);
    assert(b[1] == be_bytes(code)[0] && b[2] == be_bytes(code)[1] && b[3] == be_bytes(code)[2]
        && b[4] == be_bytes(code)[3]);
    assert(decoded_data(b) =~= data);
}

/// Malformed input is rejected: a buffer shorter than a header, or whose
/// first byte is no kind tag, is not well-formed and so never decodes.
pub proof fn lemma_malformed_rejected(b: Seq<u8>)
    requires
        b.len() < HEADER_LEN || !is_kind_tag(b[0]),
    ensures
        !is_well_formed(b),
{
}

impl PacketType {
    /// The packet kind that a wire tag stands for.
    pub fn from_byte(byte: u8) -> (r: Res<PacketType>)
        ensures
            match r {
                Ok(kind) => is_kind_tag(byte) && kind == kind_of_tag(byte),
                Err(e) => !is_kind_tag(byte) && e == Error::NetworkError(NetworkError::InvalidPacket),
            },
    {
        match byte {
            0 => Ok(PacketType::Username),
            1 => Ok(PacketType::Message),
            2 => Ok(PacketType::Image),
            _ => Err(Error::NetworkError(NetworkError::InvalidPacket)),
        }
    }

    /// The wire tag of this kind.
    pub fn to_byte(self) -> (r: u8)
        ensures
            r == kind_tag(self),
            is_kind_tag(r),
            kind_of_tag(r) == self,
    {
        match self {
            PacketType::Username => 0,
            PacketType::Message => 1,
            PacketType::Image => 2,
        }
    }

    /// Whether packets of this kind are confirmed by their receiver.
    pub fn is_verifiable(self) -> (r: bool)
        ensures
            r == kind_is_verifiable(self),
    {
        match self {
            PacketType::Username => false,
            _ => true,
        }
    }
}

/// One application message.
#[derive(Debug, Clone, PartialEq, Eq)]
pub struct Packet {
    pub kind: PacketType,
    /// Verification token that the receiver echoes back.
    pub code: u32,
    pub data: Vec<u8>,
}

/// Copies the UTF-8 bytes of a string into a new vector.
fn utf8_bytes(text: &String) -> (r: Vec<u8>)
    ensures
        r@ == encode_utf8(text@),
{
    let bytes = text.as_str().as_bytes();
    let mut out: Vec<u8> = Vec::with_capacity(bytes.len());
    let mut i: usize = 0;
    while i < bytes.len()
        invariant
            i <= bytes@.len(),
            bytes@ == encode_utf8(text@),
            out@ == bytes@.subrange(0, i as int),
        decreases bytes@.len() - i,
    {
        out.push(bytes[i]);
        i += 1;
    }
    assert(out@ =~= bytes@);
    out
}

impl Packet {
    /// A packet of the given kind, code and payload.
    pub fn new(kind: PacketType, code: u32, data: Vec<u8>) -> (r: Packet)
        ensures
            r.kind == kind,
            r.code == code,
            r.data == data,
    {
        Packet { kind, code, data }
    }

    /// A text message carrying the UTF-8 bytes of `text`.
    pub fn message(code: u32, text: String) -> (r: Packet)
        ensures
            r.kind == PacketType::Message,
            r.code == code,
            r.data@ == encode_utf8(text@),
    {
        Packet { kind: PacketType::Message, code, data: utf8_bytes(&text) }
    }

    /// An announcement of the sender's username.
    pub fn username(code: u32, name: String) -> (r: Packet)
        ensures
            r.kind == PacketType::Username,
            r.code == code,
            r.data@ == encode_utf8(name@),
    {
        Packet { kind: PacketType::Username, code, data: utf8_bytes(&name) }
    }

    /// An image, given as its encoded bytes.
    pub fn image(code: u32, encoded: Vec<u8>) -> (r: Packet)
        ensures
            r.kind == PacketType::Image,
            r.code == code,
            r.data == encoded,
    {
        Packet { kind: PacketType::Image, code, data: encoded }
    }

    /// Decodes one packet from the bytes of an exchange.
    pub fn from_bytes(bytes: Vec<u8>) -> (r: Res<Packet>)
        ensures
            match r {
                Ok(p) => {
                    &&& is_well_formed(bytes@)
                    &&& p.kind == decoded_kind(bytes@)
                    &&& p.code == decoded_code(bytes@)
                    &&& p.data@ == decoded_data(bytes@)
                },
                Err(e) => !is_well_formed(bytes@) && e == Error::NetworkError(
                    NetworkError::InvalidPacket,
                ),
            },
    {
        if bytes.len() < HEADER_LEN {
            return Err(Error::NetworkError(NetworkError::InvalidPacket));
        }
        let kind = match PacketType::from_byte(bytes[0]) {
            Ok(kind) => kind,
            Err(e) => return Err(e),
        };
        let code = be_u32(bytes[1], bytes[2], bytes[3], bytes[4]);
        let mut data: Vec<u8> = Vec::with_capacity(bytes.len() - HEADER_LEN);
        let mut i: usize = HEADER_LEN;
        while i < bytes.len()
            invariant
                HEADER_LEN <= i <= bytes@.len(),
                data@ == bytes@.subrange(HEADER_LEN as int, i as int),
            decreases bytes@.len() - i,
        {
            data.push(bytes[i]);
            i += 1;
        }
        Ok(Packet { kind, code, data })
    }

    /// Encodes this packet into its wire form.
    #[allow(clippy::wrong_self_convention)]
    pub fn to_bytes(self) -> (r: Vec<u8>)
        ensures
            r@ == packet_bytes(self.kind, self.code, self.data@),
    {
        let mut out: Vec<u8> = Vec::with_capacity(1);
        out.push(self.kind.to_byte());
        let code_bytes = code_to_be_bytes(self.code);
        let mut j: usize = 0;
        while j < code_bytes.len()
            invariant
                code_bytes@ == be_bytes(self.code),
                j <= 4,
                out@ == seq![kind_tag(self.kind)] + code_bytes@.subrange(0, j as int),
            decreases 4 - j,
        {
            out.push(code_bytes[j]);
            j += 1;
        }
        let mut i: usize = 0;
        while i < self.data.len()
            invariant
                i <= self.data@.len(),
                out@ == seq![kind_tag(self.kind)] + be_bytes(self.code) + self.data@.subrange(
                    0,
                    i as int,
                ),
            decreases self.data@.len() - i,
        {
            out.push(self.data[i]);
            i += 1;
        }
        assert(self.data@.subrange(0, self.data@.len() as int) =~= self.data@);
        out
    }
}

/// The four big-endian bytes of a code, as they stand on the wire.
pub fn code_to_be_bytes(v: u32) -> (r: Vec<u8>)
    ensures
        r@ == be_bytes(v),
{
    let r = vec![(v >> 24u32) as u8, (v >> 16u32) as u8, (v >> 8u32) as u8, v as u8];
    assert(r@ =~= be_bytes(v));
    r
}

/// The 32-bit value whose big-endian bytes are `b0 b1 b2 b3`.
pub fn be_u32(b0: u8, b1: u8, b2: u8, b3: u8) -> (r: u32)
    ensures
        r == be_value(b0, b1, b2, b3),
{
    ((b0 as u32) << 24u32) | ((b1 as u32) << 16u32) | ((b2 as u32) << 8u32) | (b3 as u32)
}

} // verus!
