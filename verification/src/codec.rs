use vstd::prelude::*;

verus! {

/// The fixed-shape control message carried by one datagram: the address
/// pattern is always `/1/mainDim` and the single argument is one 32-bit
/// float, held here as its big-endian bit pattern so that the codec and its
/// proofs work on plain integers.
#[derive(Clone, Copy, PartialEq, Eq, Structural, Debug)]
pub struct ProtocolMessage {
    /// Bit pattern of the message's single 32-bit float argument.
    pub arg_bits: u32,
}

/// The constant 16-byte head of every datagram: the address pattern
/// `/1/mainDim` (10 bytes) null-padded to a 4-byte boundary (12 bytes),
/// then the type tag string `,f` null-padded to a 4-byte boundary (4 bytes).
pub open spec fn wire_prefix() -> Seq<u8> {
    seq![
        0x2fu8, 0x31u8, 0x2fu8, 0x6du8, 0x61u8, 0x69u8, 0x6eu8, 0x44u8,
        0x69u8, 0x6du8, 0x00u8, 0x00u8, 0x2cu8, 0x66u8, 0x00u8, 0x00u8,
    ]
}

/// The four big-endian bytes of a 32-bit value, most significant first.
pub open spec fn be_bytes(x: u32) -> Seq<u8> {
    seq![
        ((x >> 24) & 0xff) as u8,
        ((x >> 16) & 0xff) as u8,
        ((x >> 8) & 0xff) as u8,
        (x & 0xff) as u8,
    ]
}

/// The 32-bit value whose big-endian bytes are `b0 b1 b2 b3`.
pub open spec fn u32_from_be(b0: u8, b1: u8, b2: u8, b3: u8) -> u32 {
    ((b0 as u32) << 24) | ((b1 as u32) << 16) | ((b2 as u32) << 8) | (b3 as u32)
}

/// The 20 bytes of the datagram that carries `m`: the constant prefix, then
/// the argument's big-endian bytes.
pub open spec fn encode_spec(m: ProtocolMessage) -> Seq<u8> {
    wire_prefix() + be_bytes(m.arg_bits)
}

/// Whether `b` is a well-formed datagram of this protocol: exactly 20 bytes
/// whose first 16 equal the constant prefix.
pub open spec fn is_wire_datagram(b: Seq<u8>) -> bool {
    b.len() == 20 && (forall|j: int| 0 <= j < 16 ==> b[j] == wire_prefix()[j])
}

/// The message a well-formed datagram carries; `None` on anything else.
pub open spec fn decode_spec(b: Seq<u8>) -> Option<ProtocolMessage> {
    if is_wire_datagram(b) {
        Some(ProtocolMessage { arg_bits: u32_from_be(b[16], b[17], b[18], b[19]) })
    } else {
        None
    }
}

/// The constant prefix as a vector, for the executable codec.
fn wire_prefix_bytes() -> (r: Vec<u8>)
    ensures
        r@ == wire_prefix(),
{
    let mut v: Vec<u8> = Vec::new();
    v.push(0x2f);
    v.push(0x31);
    v.push(0x2f);
    v.push(0x6d);
    v.push(0x61);
    v.push(0x69);
    v.push(0x6e);
    v.push(0x44);
    v.push(0x69);
    v.push(0x6d);
    v.push(0x00);
    v.push(0x00);
    v.push(0x2c);
    v.push(0x66);
    v.push(0x00);
    v.push(0x00);
    proof {
        assert(v@ =~= wire_prefix());
    }
    v
}

/// Encodes `m` into the one datagram that carries it.
pub fn encode(m: &ProtocolMessage) -> (r: Vec<u8>)
    ensures
        r@ == encode_spec(*m),
{
    let mut v = wire_prefix_bytes();
    v.push(((m.arg_bits >> 24) & 0xff) as u8);
    v.push(((m.arg_bits >> 16) & 0xff) as u8);
    v.push(((m.arg_bits >> 8) & 0xff) as u8);
    v.push((m.arg_bits & 0xff) as u8);
    proof {
        assert(v@ =~= encode_spec(*m));
    }
    v
}

/// Decodes a datagram: returns the carried message exactly when `buf` is a
/// well-formed datagram, and `None` on every other byte sequence.
pub fn decode(buf: &Vec<u8>) -> (r: Option<ProtocolMessage>)
    ensures
        r == decode_spec(buf@),
{
    if buf.len() != 20 {
        return None;
    }
    let prefix = wire_prefix_bytes();
    let mut i: usize = 0;
    while i < 16
        invariant
            buf@.len() == 20,
            prefix@ == wire_prefix(),
            i <= 16,
            forall|j: int| 0 <= j < i ==> buf@[j] == wire_prefix()[j],
        decreases 16 - i,
    {
        if buf[i] != prefix[i] {
            proof {
                assert(!is_wire_datagram(buf@));
            }
            return None;
        }
        i += 1;
    }
    let b0 = buf[16];
    let b1 = buf[17];
    let b2 = buf[18];
    let b3 = buf[19];
    let bits: u32 = ((b0 as u32) << 24) | ((b1 as u32) << 16) | ((b2 as u32) << 8) | (b3 as u32);
    proof {
        assert(is_wire_datagram(buf@));
        assert(bits == u32_from_be(buf@[16], buf@[17], buf@[18], buf@[19]));
    }
    Some(ProtocolMessage { arg_bits: bits })
}

/// Splitting a 32-bit value into big-endian bytes and reassembling them
/// yields the value back.
pub proof fn lemma_be_round_trip(x: u32)
    ensures
        u32_from_be(be_bytes(x)[0], be_bytes(x)[1], be_bytes(x)[2], be_bytes(x)[3]) == x,
{
    assert(((((x >> 24) & 0xff) as u8 as u32) << 24) | ((((x >> 16) & 0xff) as u8 as u32) << 16)
        | ((((x >> 8) & 0xff) as u8 as u32) << 8) | ((x & 0xff) as u8 as u32) == x)
        by (bit_vector);
}

/// Round-trip law: decoding the encoding of any representable message
/// yields that message back.
pub proof fn lemma_round_trip(m: ProtocolMessage)
    ensures
        decode_spec(encode_spec(m)) == Some(m),
{
    let b = encode_spec(m);
    assert(b.len() == 20);
    assert forall|j: int| 0 <= j < 16 implies b[j] == wire_prefix()[j] by {
        assert(b[j] == wire_prefix()[j]);
    }
    assert(is_wire_datagram(b));
    assert(b[16] == be_bytes(m.arg_bits)[0]);
    assert(b[17] == be_bytes(m.arg_bits)[1]);
    assert(b[18] == be_bytes(m.arg_bits)[2]);
    assert(b[19] == be_bytes(m.arg_bits)[3]);
    lemma_be_round_trip(m.arg_bits);
}

/// Exactness of decoding: a byte sequence that decodes at all is the
/// encoding of the message it decodes to, so distinct well-formed datagrams
/// carry distinct messages.
pub proof fn lemma_decode_exact(b: Seq<u8>)
    requires
        decode_spec(b) is Some,
    ensures
        b == encode_spec(decode_spec(b).unwrap()),
{
    let m = decode_spec(b).unwrap();
    let b0 = b[16];
    let b1 = b[17];
    let b2 = b[18];
    let b3 = b[19];
    let x = u32_from_be(b0, b1, b2, b3);
    assert(((((b0 as u32) << 24) | ((b1 as u32) << 16) | ((b2 as u32) << 8) | (b3 as u32)) >> 24)
        & 0xff == b0 as u32) by (bit_vector);
    assert(((((b0 as u32) << 24) | ((b1 as u32) << 16) | ((b2 as u32) << 8) | (b3 as u32)) >> 16)
        & 0xff == b1 as u32) by (bit_vector);
    assert(((((b0 as u32) << 24) | ((b1 as u32) << 16) | ((b2 as u32) << 8) | (b3 as u32)) >> 8)
        & 0xff == b2 as u32) by (bit_vector);
    assert((((b0 as u32) << 24) | ((b1 as u32) << 16) | ((b2 as u32) << 8) | (b3 as u32)) & 0xff
        == b3 as u32) by (bit_vector);
    assert(be_bytes(x)[0] == b0);
    assert(be_bytes(x)[1] == b1);
    assert(be_bytes(x)[2] == b2);
    assert(be_bytes(x)[3] == b3);
    assert(b =~= encode_spec(m));
}

} // verus!
