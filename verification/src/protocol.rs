//! The 2.4G / BLE Mesh frame protocol: frame layout, CRC-16/CCITT, encoding and decoding.

use vstd::prelude::*;

verus! {

/// First byte of every frame.
pub const FRAME_HEADER: u8 = 0xAA;
/// Last byte of every frame.
pub const FRAME_FOOTER: u8 = 0x55;

/// Flag bit 0: the payload is encrypted.
pub const FLAG_ENCRYPTED: u8 = 0x01;
/// Flag bit 1: the receiver must acknowledge the frame.
pub const FLAG_ACK_REQUIRED: u8 = 0x02;
/// Flag bit 2: the frame is relayed through the mesh.
pub const FLAG_MESH_RELAY: u8 = 0x04;

/// Operation carried by a frame.
#[derive(Debug, Clone, Copy, PartialEq, Eq, Structural)]
pub enum OpCode {
    // basic control
    Ack,
    Heartbeat,
    Discover,
    DiscoverResp,
    // provisioning
    ProvisionReq,
    ProvisionResp,
    ProvisionAck,
    // device control
    SetState,
    GetState,
    StateReport,
    // mesh network
    MeshJoin,
    MeshLeave,
    MeshRelay,
    MeshRoute,
    // security
    KeyExchange,
    KeyExchangeAck,
}

impl OpCode {
    /// The byte that stands for this operation on the wire.
    pub open spec fn byte_of(self) -> u8 {
        match self {
            OpCode::Ack => 0x00,
            OpCode::Heartbeat => 0x01,
            OpCode::Discover => 0x02,
            OpCode::DiscoverResp => 0x03,
            OpCode::ProvisionReq => 0x10,
            OpCode::ProvisionResp => 0x11,
            OpCode::ProvisionAck => 0x12,
            OpCode::SetState => 0x20,
            OpCode::GetState => 0x21,
            OpCode::StateReport => 0x22,
            OpCode::MeshJoin => 0x30,
            OpCode::MeshLeave => 0x31,
            OpCode::MeshRelay => 0x32,
            OpCode::MeshRoute => 0x33,
            OpCode::KeyExchange => 0x40,
            OpCode::KeyExchangeAck => 0x41,
        }
    }

    /// The operation that a wire byte stands for, if any: the one whose byte it is.
    pub open spec fn from_byte_spec(b: u8) -> Option<OpCode> {
        if exists|op: OpCode| op.byte_of() == b {
            Some(choose|op: OpCode| op.byte_of() == b)
        } else {
            None
        }
    }

    /// Reads an operation from its wire byte; `None` for an unknown byte.
    pub fn from_byte(b: u8) -> (r: Option<Self>)
        ensures
            r == Self::from_byte_spec(b),
    {
        let r = match b {
            0x00 => Some(OpCode::Ack),
            0x01 => Some(OpCode::Heartbeat),
            0x02 => Some(OpCode::Discover),
            0x03 => Some(OpCode::DiscoverResp),
            0x10 => Some(OpCode::ProvisionReq),
            0x11 => Some(OpCode::ProvisionResp),
            0x12 => Some(OpCode::ProvisionAck),
            0x20 => Some(OpCode::SetState),
            0x21 => Some(OpCode::GetState),
            0x22 => Some(OpCode::StateReport),
            0x30 => Some(OpCode::MeshJoin),
            0x31 => Some(OpCode::MeshLeave),
            0x32 => Some(OpCode::MeshRelay),
            0x33 => Some(OpCode::MeshRoute),
            0x40 => Some(OpCode::KeyExchange),
            0x41 => Some(OpCode::KeyExchangeAck),
            _ => None,
        };
        proof {
            match r {
                Some(op) => lemma_opcode_byte_roundtrip(op, b),
                None => {
                    assert forall|op: OpCode| op.byte_of() != b by {
                        assert(op.byte_of() == 0x00 || op.byte_of() == 0x01 || op.byte_of() == 0x02
                            || op.byte_of() == 0x03 || op.byte_of() == 0x10 || op.byte_of() == 0x11
                            || op.byte_of() == 0x12 || op.byte_of() == 0x20 || op.byte_of() == 0x21
                            || op.byte_of() == 0x22 || op.byte_of() == 0x30 || op.byte_of() == 0x31
                            || op.byte_of() == 0x32 || op.byte_of() == 0x33 || op.byte_of() == 0x40
                            || op.byte_of() == 0x41);
                    }
                },
            }
        }
        r
    }

    /// The wire byte of this operation.
    pub fn to_byte(self) -> (b: u8)
        ensures
            b == self.byte_of(),
    {
        match self {
            OpCode::Ack => 0x00,
            OpCode::Heartbeat => 0x01,
            OpCode::Discover => 0x02,
            OpCode::DiscoverResp => 0x03,
            OpCode::ProvisionReq => 0x10,
            OpCode::ProvisionResp => 0x11,
            OpCode::ProvisionAck => 0x12,
            OpCode::SetState => 0x20,
            OpCode::GetState => 0x21,
            OpCode::StateReport => 0x22,
            OpCode::MeshJoin => 0x30,
            OpCode::MeshLeave => 0x31,
            OpCode::MeshRelay => 0x32,
            OpCode::MeshRoute => 0x33,
            OpCode::KeyExchange => 0x40,
            OpCode::KeyExchangeAck => 0x41,
        }
    }
}

/// Every operation has exactly one wire byte: reading a byte gives `op` back
/// exactly when the byte is `op`'s.
pub proof fn lemma_opcode_byte_roundtrip(op: OpCode, b: u8)
    ensures
        OpCode::from_byte_spec(op.byte_of()) == Some(op),
        OpCode::from_byte_spec(b) == Some(op) <==> op.byte_of() == b,
{
    let c = choose|c: OpCode| c.byte_of() == op.byte_of();
    assert(c.byte_of() == op.byte_of() ==> c == op);
    if exists|x: OpCode| x.byte_of() == b {
        let d = choose|x: OpCode| x.byte_of() == b;
        assert(d.byte_of() == op.byte_of() ==> d == op);
    }
}

/// Generator polynomial of CRC-16/CCITT.
pub const CRC16_POLY: u16 = 0x1021;

/// One shift step of the bitwise CRC register.
pub open spec fn crc16_shift(crc: u16) -> u16 {
    if crc & 0x8000 != 0 {
        ((crc << 1u16) ^ 0x1021u16) as u16
    } else {
        (crc << 1u16) as u16
    }
}

/// `n` shift steps of the CRC register.
pub open spec fn crc16_shifts(crc: u16, n: nat) -> u16
    decreases n,
{
    if n == 0 {
        crc
    } else {
        crc16_shifts(crc16_shift(crc), (n - 1) as nat)
    }
}

/// The CRC register after absorbing one byte.
pub open spec fn crc16_byte(crc: u16, byte: u8) -> u16 {
    crc16_shifts((crc ^ ((byte as u16) << 8u16)) as u16, 8)
}

/// CRC-16/CCITT (initial value 0xFFFF, no final XOR) of a byte sequence.
pub open spec fn spec_crc16(data: Seq<u8>) -> u16
    decreases data.len(),
{
    if data.len() == 0 {
        0xFFFF
    } else {
        crc16_byte(spec_crc16(data.drop_last()), data.last())
    }
}

/// CRC-16/CCITT of `data`.
pub fn crc16(data: &[u8]) -> (crc: u16)
    ensures
        crc == spec_crc16(data@),
{
    let mut crc: u16 = 0xFFFF;
    let mut i: usize = 0;
    while i < data.len()
        invariant
            i <= data.len(),
            crc == spec_crc16(data@.take(i as int)),
        decreases data.len() - i,
    {
        let byte = data[i];
        let ghost start: u16 = (crc ^ ((byte as u16) << 8u16)) as u16;
        crc ^= (byte as u16) << 8u16;
        let mut k: u32 = 0;
        while k < 8
            invariant
                k <= 8,
                crc16_shifts(crc, (8 - k) as nat) == crc16_shifts(start, 8),
            decreases 8 - k,
        {
            if crc & 0x8000 != 0 {
                crc = (crc << 1u16) ^ CRC16_POLY;
            } else {
                crc = crc << 1u16;
            }
            k += 1;
        }
        assert(data@.take(i + 1).drop_last() =~= data@.take(i as int));
        i += 1;
    }
    assert(data@.take(data.len() as int) =~= data@);
    crc
}

/// Big-endian bytes of a 16-bit value.
pub open spec fn be16(x: u16) -> Seq<u8> {
    seq![(x >> 8u16) as u8, (x & 0xffu16) as u8]
}

/// The 16-bit value of two big-endian bytes.
pub open spec fn from_be16(hi: u8, lo: u8) -> u16 {
    (((hi as u16) << 8u16) | (lo as u16)) as u16
}

proof fn lemma_be16_roundtrip(x: u16, hi: u8, lo: u8)
    ensures
        from_be16(be16(x)[0], be16(x)[1]) == x,
        be16(from_be16(hi, lo)) == seq![hi, lo],
{
    let a = (x >> 8u16) as u8;
    let b = (x & 0xffu16) as u8;
    assert((((a as u16) << 8u16) | (b as u16)) as u16 == x) by (bit_vector)
        requires
            a == (x >> 8u16) as u8,
            b == (x & 0xffu16) as u8,
    ;
    let y = (((hi as u16) << 8u16) | (lo as u16)) as u16;
    assert((y >> 8u16) as u8 == hi && (y & 0xffu16) as u8 == lo) by (bit_vector)
        requires
            y == (((hi as u16) << 8u16) | (lo as u16)) as u16,
    ;
}

fn u16_to_be(x: u16) -> (r: (u8, u8))
    ensures
        seq![r.0, r.1] == be16(x),
{
    ((x >> 8u16) as u8, (x & 0xffu16) as u8)
}

fn u16_from_be(hi: u8, lo: u8) -> (r: u16)
    ensures
        r == from_be16(hi, lo),
{
    ((hi as u16) << 8u16) | (lo as u16)
}

/// A protocol frame.
#[derive(Debug, Clone)]
pub struct Frame {
    pub flags: u8,
    pub opcode: OpCode,
    pub src_addr: u16,
    pub dst_addr: u16,
    pub seq: u16,
    pub payload: Vec<u8>,
}

/// A frame as a mathematical value: its fields, with the payload as a sequence.
pub struct FrameView {
    pub flags: u8,
    pub opcode: OpCode,
    pub src_addr: u16,
    pub dst_addr: u16,
    pub seq: u16,
    pub payload: Seq<u8>,
}

impl View for Frame {
    type V = FrameView;

    open spec fn view(&self) -> FrameView {
        FrameView {
            flags: self.flags,
            opcode: self.opcode,
            src_addr: self.src_addr,
            dst_addr: self.dst_addr,
            seq: self.seq,
            payload: self.payload@,
        }
    }
}

/// The bytes of a frame that its checksum covers: header, flags, opcode,
/// source, destination and sequence number (big-endian), then the payload.
pub open spec fn frame_body(f: FrameView) -> Seq<u8> {
    seq![FRAME_HEADER, f.flags, f.opcode.byte_of()] + be16(f.src_addr) + be16(f.dst_addr) + be16(
        f.seq,
    ) + f.payload
}

/// The wire form of a frame: its body, the body's CRC-16 (big-endian), and the footer.
pub open spec fn encode_spec(f: FrameView) -> Seq<u8> {
    frame_body(f) + be16(spec_crc16(frame_body(f))) + seq![FRAME_FOOTER]
}

/// Why a byte sequence is not a frame.
#[derive(Debug, Clone, Copy, PartialEq, Eq, Structural)]
pub enum DecodeError {
    TooShort,
    InvalidHeader,
    InvalidFooter,
    UnknownOpcode,
    CrcMismatch,
}

impl DecodeError {
    /// The text that `Frame::decode` reports for this error.
    pub open spec fn message(self) -> Seq<char> {
        match self {
            DecodeError::TooShort => "frame too short"@,
            DecodeError::InvalidHeader => "invalid header"@,
            DecodeError::InvalidFooter => "invalid footer"@,
            DecodeError::UnknownOpcode => "unknown opcode"@,
            DecodeError::CrcMismatch => "crc mismatch"@,
        }
    }
}

/// The inputs on which decoding is undefined: eleven bytes with a valid header,
/// footer and opcode, where the frame layout leaves the payload a negative length.
pub open spec fn decode_slices_out_of_range(data: Seq<u8>) -> bool {
    &&& data.len() == 11
    &&& data[0] == FRAME_HEADER
    &&& data[10] == FRAME_FOOTER
    &&& OpCode::from_byte_spec(data[2]) is Some
}

/// What decoding `data` gives: the checks in order (length, header, footer,
/// opcode, checksum), then the frame's fields.
pub open spec fn decode_spec(data: Seq<u8>) -> Result<FrameView, DecodeError> {
    let n = data.len();
    if n < 11 {
        Err(DecodeError::TooShort)
    } else if data[0] != FRAME_HEADER {
        Err(DecodeError::InvalidHeader)
    } else if data[n - 1] != FRAME_FOOTER {
        Err(DecodeError::InvalidFooter)
    } else if OpCode::from_byte_spec(data[2]) is None {
        Err(DecodeError::UnknownOpcode)
    } else if from_be16(data[n - 3], data[n - 2]) != spec_crc16(data.take(n - 3)) {
        Err(DecodeError::CrcMismatch)
    } else {
        Ok(
            FrameView {
                flags: data[1],
                opcode: OpCode::from_byte_spec(data[2])->Some_0,
                src_addr: from_be16(data[3], data[4]),
                dst_addr: from_be16(data[5], data[6]),
                seq: from_be16(data[7], data[8]),
                payload: data.subrange(9, n - 3),
            },
        )
    }
}

impl Frame {
    /// A frame with no flags set and sequence number 0.
    pub fn new(opcode: OpCode, src: u16, dst: u16, payload: Vec<u8>) -> (f: Self)
        ensures
            f@ == (FrameView { flags: 0, opcode, src_addr: src, dst_addr: dst, seq: 0, payload: payload@ }),
    {
        Frame { flags: 0, opcode, src_addr: src, dst_addr: dst, seq: 0, payload }
    }

    /// Encodes the frame into its wire form.
    pub fn encode(&self) -> (buf: Vec<u8>)
        requires
            self.payload.len() + 12 <= usize::MAX,
        ensures
            buf@ == encode_spec(self@),
            buf@.len() == self.payload@.len() + 12,
            buf@[0] == FRAME_HEADER,
            buf@[1] == self.flags,
            buf@[2] == self.opcode.byte_of(),
            buf@[3] as int * 256 + buf@[4] as int == self.src_addr as int,
            buf@[5] as int * 256 + buf@[6] as int == self.dst_addr as int,
            buf@[7] as int * 256 + buf@[8] as int == self.seq as int,
            buf@.subrange(9, 9 + self.payload@.len() as int) == self.payload@,
            buf@[9 + self.payload@.len() as int] as int * 256 + buf@[10 + self.payload@.len() as int] as int == spec_crc16(
                buf@.take(9 + self.payload@.len() as int),
            ) as int,
            buf@[11 + self.payload@.len() as int] == FRAME_FOOTER,
    {
        let mut buf: Vec<u8> = Vec::with_capacity(10 + self.payload.len());
        buf.push(FRAME_HEADER);
        buf.push(self.flags);
        buf.push(self.opcode.to_byte());
        let (a, b) = u16_to_be(self.src_addr);
        buf.push(a);
        buf.push(b);
        let (a, b) = u16_to_be(self.dst_addr);
        buf.push(a);
        buf.push(b);
        let (a, b) = u16_to_be(self.seq);
        buf.push(a);
        buf.push(b);
        let ghost head = buf@;
        buf.extend_from_slice(self.payload.as_slice());
        assert(buf@ =~= frame_body(self@)) by {
            assert(head =~= seq![FRAME_HEADER, self.flags, self.opcode.byte_of()] + be16(self.src_addr) + be16(self.dst_addr) + be16(self.seq));
        }
        let crc = crc16(buf.as_slice());
        let (a, b) = u16_to_be(crc);
        buf.push(a);
        buf.push(b);
        buf.push(FRAME_FOOTER);
        assert(buf@ =~= encode_spec(self@));
        proof {
            lemma_encode_layout(self@);
        }
        buf
    }

    /// Decodes a frame from its wire form, or reports why the bytes are not one.
    pub fn decode(data: &[u8]) -> (r: Result<Self, &'static str>)
        requires
            !decode_slices_out_of_range(data@),
        ensures
            match (r, decode_spec(data@)) {
                (Ok(f), Ok(v)) => f@ == v,
                (Err(e), Err(k)) => e@ == k.message(),
                _ => false,
            },
            r matches Ok(f) ==> {
                &&& data@.len() >= 12
                &&& data@[0] == FRAME_HEADER
                &&& data@[data@.len() - 1] == FRAME_FOOTER
                &&& f.flags == data@[1]
                &&& f.opcode.byte_of() == data@[2]
                &&& f.src_addr as int == data@[3] as int * 256 + data@[4] as int
                &&& f.dst_addr as int == data@[5] as int * 256 + data@[6] as int
                &&& f.seq as int == data@[7] as int * 256 + data@[8] as int
                &&& f.payload@ == data@.subrange(9, data@.len() - 3)
                &&& data@[data@.len() - 3] as int * 256 + data@[data@.len() - 2] as int
                    == spec_crc16(data@.take(data@.len() - 3)) as int
            },
    {
        proof {
            reveal_strlit("frame too short");
            reveal_strlit("invalid header");
            reveal_strlit("invalid footer");
            reveal_strlit("unknown opcode");
            reveal_strlit("crc mismatch");
        }
        if data.len() < 11 {
            return Err("frame too short");
        }
        if data[0] != FRAME_HEADER {
            return Err("invalid header");
        }
        if data[data.len() - 1] != FRAME_FOOTER {
            return Err("invalid footer");
        }
        let payload_end = data.len() - 3;
        let flags = data[1];
        let opcode = match OpCode::from_byte(data[2]) {
            Some(op) => op,
            None => return Err("unknown opcode"),
        };
        let src_addr = u16_from_be(data[3], data[4]);
        let dst_addr = u16_from_be(data[5], data[6]);
        let seq = u16_from_be(data[7], data[8]);
        let mut payload: Vec<u8> = Vec::new();
        payload.extend_from_slice(&data[9..payload_end]);
        let expected_crc = u16_from_be(data[payload_end], data[payload_end + 1]);
        let actual_crc = crc16(&data[0..payload_end]);
        if expected_crc != actual_crc {
            return Err("crc mismatch");
        }
        let f = Frame { flags, opcode, src_addr, dst_addr, seq, payload };
        assert(f@.payload =~= data@.subrange(9, data@.len() - 3));
        proof {
            lemma_decode_fields(data@);
        }
        Ok(f)
    }
}

proof fn lemma_be16_value(x: u16, hi: u8, lo: u8)
    ensures
        be16(x)[0] as int * 256 + be16(x)[1] as int == x as int,
        from_be16(hi, lo) as int == hi as int * 256 + lo as int,
{
    let a = (x >> 8u16) as u8;
    let b = (x & 0xffu16) as u8;
    assert(a as u16 * 256 + b as u16 == x) by (bit_vector)
        requires
            a == (x >> 8u16) as u8,
            b == (x & 0xffu16) as u8,
    ;
    assert((((hi as u16) << 8u16) | (lo as u16)) as u16 == hi as u16 * 256 + lo as u16) by (bit_vector);
}

/// The wire layout of an encoded frame: 0xAA, the flags, the opcode's byte,
/// source, destination and sequence number big-endian, the payload in order,
/// the CRC-16 of everything before it big-endian, and 0x55.
pub proof fn lemma_encode_layout(f: FrameView)
    ensures
            encode_spec(f).len() == f.payload.len() + 12,
            encode_spec(f)[0] == FRAME_HEADER,
            encode_spec(f)[1] == f.flags,
            encode_spec(f)[2] == f.opcode.byte_of(),
            encode_spec(f)[3] as int * 256 + encode_spec(f)[4] as int == f.src_addr as int,
            encode_spec(f)[5] as int * 256 + encode_spec(f)[6] as int == f.dst_addr as int,
            encode_spec(f)[7] as int * 256 + encode_spec(f)[8] as int == f.seq as int,
            encode_spec(f).subrange(9, 9 + f.payload.len() as int) == f.payload,
            encode_spec(f)[9 + f.payload.len() as int] as int * 256 + encode_spec(f)[10 + f.payload.len() as int] as int == spec_crc16(
                encode_spec(f).take(9 + f.payload.len() as int),
            ) as int,
            encode_spec(f)[11 + f.payload.len() as int] == FRAME_FOOTER,
{
    let e = encode_spec(f);
    let n = f.payload.len() as int;
    lemma_be16_value(f.src_addr, 0, 0);
    lemma_be16_value(f.dst_addr, 0, 0);
    lemma_be16_value(f.seq, 0, 0);
    lemma_be16_value(spec_crc16(frame_body(f)), 0, 0);
    assert(e.take(9 + n) =~= frame_body(f));
    assert(e.subrange(9, 9 + n) =~= f.payload);
    assert(e[3] == be16(f.src_addr)[0] && e[4] == be16(f.src_addr)[1]);
    assert(e[5] == be16(f.dst_addr)[0] && e[6] == be16(f.dst_addr)[1]);
    assert(e[7] == be16(f.seq)[0] && e[8] == be16(f.seq)[1]);
    assert(e[9 + n] == be16(spec_crc16(frame_body(f)))[0]);
    assert(e[10 + n] == be16(spec_crc16(frame_body(f)))[1]);
}

/// What a successful decode reads from its input: the input is at least twelve
/// bytes framed by 0xAA and 0x55, the flags, opcode byte, source, destination and
/// sequence number (big-endian) are taken from the leading bytes, the payload is
/// every byte between them and the checksum, in order, and the checksum is the
/// CRC-16 of everything before it.
pub proof fn lemma_decode_fields(data: Seq<u8>)
    requires
        !decode_slices_out_of_range(data),
        decode_spec(data) is Ok,
    ensures
        data.len() >= 12,
        data[0] == FRAME_HEADER,
        data[data.len() - 1] == FRAME_FOOTER,
        decode_spec(data)->Ok_0.flags == data[1],
        decode_spec(data)->Ok_0.opcode.byte_of() == data[2],
        decode_spec(data)->Ok_0.src_addr as int == data[3] as int * 256 + data[4] as int,
        decode_spec(data)->Ok_0.dst_addr as int == data[5] as int * 256 + data[6] as int,
        decode_spec(data)->Ok_0.seq as int == data[7] as int * 256 + data[8] as int,
        decode_spec(data)->Ok_0.payload == data.subrange(9, data.len() - 3),
        data[data.len() - 3] as int * 256 + data[data.len() - 2] as int == spec_crc16(
            data.take(data.len() - 3),
        ) as int,
{
    let n = data.len();
    let v = decode_spec(data)->Ok_0;
    lemma_opcode_byte_roundtrip(v.opcode, data[2]);
    lemma_be16_value(0, data[3], data[4]);
    lemma_be16_value(0, data[5], data[6]);
    lemma_be16_value(0, data[7], data[8]);
    lemma_be16_value(0, data[n - 3], data[n - 2]);
}

/// Decoding gives back every frame that was encoded: `decode(encode(f)) == Ok(f)`,
/// and an encoded frame is never an input on which decoding is undefined.
pub proof fn lemma_decode_encode(f: FrameView)
    ensures
        !decode_slices_out_of_range(encode_spec(f)),
        decode_spec(encode_spec(f)) == Ok::<FrameView, DecodeError>(f),
{
    let body = frame_body(f);
    let d = encode_spec(f);
    let n = d.len();
    let crc = spec_crc16(body);
    assert(body.len() == 9 + f.payload.len() as int);
    assert(n == 12 + f.payload.len());
    assert(d.take(n - 3) =~= body);
    lemma_be16_roundtrip(crc, 0, 0);
    lemma_be16_roundtrip(f.src_addr, 0, 0);
    lemma_be16_roundtrip(f.dst_addr, 0, 0);
    lemma_be16_roundtrip(f.seq, 0, 0);
    lemma_opcode_byte_roundtrip(f.opcode, 0);
    assert(d[n - 3] == be16(crc)[0] && d[n - 2] == be16(crc)[1]);
    assert(d[3] == be16(f.src_addr)[0] && d[4] == be16(f.src_addr)[1]);
    assert(d[5] == be16(f.dst_addr)[0] && d[6] == be16(f.dst_addr)[1]);
    assert(d[7] == be16(f.seq)[0] && d[8] == be16(f.seq)[1]);
    assert(d.subrange(9, n - 3) =~= f.payload);
}

/// Decoding accepts only the exact wire form of a frame: whenever `decode(data)`
/// succeeds, encoding its result gives `data` back byte for byte.
pub proof fn lemma_encode_decode(data: Seq<u8>)
    requires
        !decode_slices_out_of_range(data),
        decode_spec(data) is Ok,
    ensures
        encode_spec(decode_spec(data)->Ok_0) == data,
{
    let v = decode_spec(data)->Ok_0;
    let n = data.len();
    lemma_opcode_byte_roundtrip(v.opcode, data[2]);
    lemma_be16_roundtrip(0, data[3], data[4]);
    lemma_be16_roundtrip(0, data[5], data[6]);
    lemma_be16_roundtrip(0, data[7], data[8]);
    lemma_be16_roundtrip(0, data[n - 3], data[n - 2]);
    let body = frame_body(v);
    assert(body =~= data.take(n - 3));
    assert(encode_spec(v) =~= data);
}

impl Frame {
    /// The same frame with the ack-required flag set.
    pub fn with_ack_required(self) -> (r: Self)
        ensures
            r@ == (FrameView { flags: self.flags | FLAG_ACK_REQUIRED, ..self@ }),
    {
        let mut f = self;
        f.flags = f.flags | FLAG_ACK_REQUIRED;
        f
    }

    /// The same frame with the encrypted flag set.
    pub fn with_encrypted(self) -> (r: Self)
        ensures
            r@ == (FrameView { flags: self.flags | FLAG_ENCRYPTED, ..self@ }),
    {
        let mut f = self;
        f.flags = f.flags | FLAG_ENCRYPTED;
        f
    }

    /// The same frame with the mesh-relay flag set.
    pub fn with_mesh_relay(self) -> (r: Self)
        ensures
            r@ == (FrameView { flags: self.flags | FLAG_MESH_RELAY, ..self@ }),
    {
        let mut f = self;
        f.flags = f.flags | FLAG_MESH_RELAY;
        f
    }
}

/// Each flag owns one bit (encrypted bit 0, ack-required bit 1, mesh-relay bit 2):
/// setting one flag makes it set and leaves every other bit of the flags byte as it was,
/// and setting flags is idempotent and independent of order.
pub proof fn lemma_flag_bits(flags: u8)
    ensures
        FLAG_ENCRYPTED == 1u8 << 0u8,
        FLAG_ACK_REQUIRED == 1u8 << 1u8,
        FLAG_MESH_RELAY == 1u8 << 2u8,
        (flags | FLAG_ENCRYPTED) & FLAG_ENCRYPTED == FLAG_ENCRYPTED,
        (flags | FLAG_ENCRYPTED) & !FLAG_ENCRYPTED == flags & !FLAG_ENCRYPTED,
        (flags | FLAG_ACK_REQUIRED) & FLAG_ACK_REQUIRED == FLAG_ACK_REQUIRED,
        (flags | FLAG_ACK_REQUIRED) & !FLAG_ACK_REQUIRED == flags & !FLAG_ACK_REQUIRED,
        (flags | FLAG_MESH_RELAY) & FLAG_MESH_RELAY == FLAG_MESH_RELAY,
        (flags | FLAG_MESH_RELAY) & !FLAG_MESH_RELAY == flags & !FLAG_MESH_RELAY,
        (flags | FLAG_ENCRYPTED) | FLAG_ENCRYPTED == flags | FLAG_ENCRYPTED,
        (flags | FLAG_ACK_REQUIRED) | FLAG_ACK_REQUIRED == flags | FLAG_ACK_REQUIRED,
        (flags | FLAG_MESH_RELAY) | FLAG_MESH_RELAY == flags | FLAG_MESH_RELAY,
        (flags | FLAG_ENCRYPTED) | FLAG_ACK_REQUIRED == (flags | FLAG_ACK_REQUIRED) | FLAG_ENCRYPTED,
        (flags | FLAG_ENCRYPTED) | FLAG_MESH_RELAY == (flags | FLAG_MESH_RELAY) | FLAG_ENCRYPTED,
        (flags | FLAG_ACK_REQUIRED) | FLAG_MESH_RELAY == (flags | FLAG_MESH_RELAY) | FLAG_ACK_REQUIRED,
{
    assert(0x01u8 == 1u8 << 0u8 && 0x02u8 == 1u8 << 1u8 && 0x04u8 == 1u8 << 2u8) by (bit_vector);
    assert((flags | 0x01u8) & 0x01u8 == 0x01u8 && (flags | 0x01u8) & !0x01u8 == flags & !0x01u8)
        by (bit_vector);
    assert((flags | 0x02u8) & 0x02u8 == 0x02u8 && (flags | 0x02u8) & !0x02u8 == flags & !0x02u8)
        by (bit_vector);
    assert((flags | 0x04u8) & 0x04u8 == 0x04u8 && (flags | 0x04u8) & !0x04u8 == flags & !0x04u8)
        by (bit_vector);
    assert((flags | 0x01u8) | 0x01u8 == flags | 0x01u8 && (flags | 0x02u8) | 0x02u8 == flags
        | 0x02u8 && (flags | 0x04u8) | 0x04u8 == flags | 0x04u8) by (bit_vector);
    assert((flags | 0x01u8) | 0x02u8 == (flags | 0x02u8) | 0x01u8 && (flags | 0x01u8) | 0x04u8
        == (flags | 0x04u8) | 0x01u8 && (flags | 0x02u8) | 0x04u8 == (flags | 0x04u8) | 0x02u8)
        by (bit_vector);
}

/// Whether `Frame::decode` is defined on `data`: it is everywhere but on the
/// eleven-byte inputs of `decode_slices_out_of_range`.
pub fn decode_is_defined(data: &[u8]) -> (b: bool)
    ensures
        b == !decode_slices_out_of_range(data@),
{
    !(data.len() == 11 && data[0] == FRAME_HEADER && data[10] == FRAME_FOOTER
        && OpCode::from_byte(data[2]).is_some())
}

/// One shift step of the CRC register loses nothing: distinct registers stay distinct.
proof fn lemma_crc16_shift_injective(a: u16, b: u16)
    ensures
        crc16_shift(a) == crc16_shift(b) ==> a == b,
{
    assert((if a & 0x8000 != 0 { ((a << 1u16) ^ 0x1021u16) as u16 } else { (a << 1u16) as u16 })
        == (if b & 0x8000 != 0 { ((b << 1u16) ^ 0x1021u16) as u16 } else { (b << 1u16) as u16 })
        ==> a == b) by (bit_vector);
}

/// Any number of shift steps keeps distinct registers distinct.
proof fn lemma_crc16_shifts_injective(a: u16, b: u16, n: nat)
    requires
        a != b,
    ensures
        crc16_shifts(a, n) != crc16_shifts(b, n),
    decreases n,
{
    if n > 0 {
        lemma_crc16_shift_injective(a, b);
        lemma_crc16_shifts_injective(crc16_shift(a), crc16_shift(b), (n - 1) as nat);
    }
}

/// Absorbing one byte keeps distinct registers distinct, and from one register
/// distinct bytes lead to distinct registers.
proof fn lemma_crc16_byte_distinct(p: u16, q: u16, x: u8, y: u8)
    requires
        p != q || x != y,
        p == q || x == y,
    ensures
        crc16_byte(p, x) != crc16_byte(q, y),
{
    let u = (p ^ ((x as u16) << 8u16)) as u16;
    let v = (q ^ ((y as u16) << 8u16)) as u16;
    assert((p != q || x != y) && (p == q || x == y) ==> (p ^ ((x as u16) << 8u16)) as u16 != (q
        ^ ((y as u16) << 8u16)) as u16) by (bit_vector);
    lemma_crc16_shifts_injective(u, v, 8);
}

/// Two byte sequences that differ in exactly one position have different CRCs.
proof fn lemma_crc16_detects_one_byte(a: Seq<u8>, b: Seq<u8>, i: int)
    requires
        a.len() == b.len(),
        0 <= i < a.len(),
        a[i] != b[i],
        forall|j: int| 0 <= j < a.len() && j != i ==> a[j] == b[j],
    ensures
        spec_crc16(a) != spec_crc16(b),
    decreases a.len(),
{
    let n = a.len() - 1;
    if i == n {
        assert(a.drop_last() =~= b.drop_last());
        lemma_crc16_byte_distinct(spec_crc16(a.drop_last()), spec_crc16(b.drop_last()), a.last(), b.last());
    } else {
        lemma_crc16_detects_one_byte(a.drop_last(), b.drop_last(), i);
        assert(a.last() == b.last());
        lemma_crc16_byte_distinct(spec_crc16(a.drop_last()), spec_crc16(b.drop_last()), a.last(), b.last());
    }
}

/// Appending the CRC of some bytes to them, big-endian, gives a CRC of zero.
pub proof fn lemma_crc16_residue(data: Seq<u8>)
    ensures
        spec_crc16(data + be16(spec_crc16(data))) == 0,
{
    let c = spec_crc16(data);
    let hi = #[verifier::truncate] ((c >> 8u16) as u8);
    let lo = #[verifier::truncate] ((c & 0xffu16) as u8);
    let s = data + be16(c);
    assert(s.drop_last() =~= data.push(hi));
    assert(data.push(hi).drop_last() =~= data);
    reveal_with_fuel(crc16_shifts, 9);
    let x = (c ^ ((hi as u16) << 8u16)) as u16;
    assert(x == c & 0xffu16) by (bit_vector)
        requires
            hi == (c >> 8u16) as u8,
            x == (c ^ ((hi as u16) << 8u16)) as u16,
    ;
    let y = crc16_shifts(x, 8);
    assert(y == ((c & 0xffu16) << 8u16) as u16) by (bit_vector)
        requires
            x == c & 0xffu16,
            y == crc16_shift(crc16_shift(crc16_shift(crc16_shift(crc16_shift(crc16_shift(crc16_shift(crc16_shift(x)))))))),
    ;
    let z = (y ^ ((lo as u16) << 8u16)) as u16;
    assert(z == 0) by (bit_vector)
        requires
            lo == (c & 0xffu16) as u8,
            y == ((c & 0xffu16) << 8u16) as u16,
            z == (y ^ ((lo as u16) << 8u16)) as u16,
    ;
    assert(crc16_shift(0) == 0) by (bit_vector);
    assert(crc16_shifts(0, 8) == 0);
    assert(crc16_byte(c, hi) == y);
    assert(spec_crc16(data.push(hi)) == y);
    assert(s.last() == lo);
    assert(spec_crc16(s) == crc16_byte(y, lo));
}

/// Every single-byte corruption of an encoded frame is detected: changing any one
/// byte (header, body, checksum or footer) of `encode(f)` by a nonzero XOR mask
/// gives bytes on which decoding is defined and fails.
pub proof fn lemma_single_byte_corruption_detected(f: FrameView, i: int, m: u8)
    requires
        0 <= i < encode_spec(f).len(),
        m != 0,
    ensures
        !decode_slices_out_of_range(encode_spec(f).update(i, encode_spec(f)[i] ^ m)),
        decode_spec(encode_spec(f).update(i, encode_spec(f)[i] ^ m)) is Err,
{
    let e = encode_spec(f);
    let d = e.update(i, e[i] ^ m);
    let n = e.len();
    lemma_decode_encode(f);
    assert(n >= 12);
    let b = e[i];
    assert(b ^ m != b) by (bit_vector)
        requires
            m != 0,
    ;
    if decode_spec(d) is Ok {
        // every check before the checksum passed on `d`
        assert(d[0] == FRAME_HEADER && d[n - 1] == FRAME_FOOTER);
        assert(i != 0 && i != n - 1);
        if i < n - 3 {
            lemma_crc16_detects_one_byte(e.take(n - 3), d.take(n - 3), i);
            assert(d[n - 3] == e[n - 3] && d[n - 2] == e[n - 2]);
        } else {
            assert(d.take(n - 3) =~= e.take(n - 3));
            lemma_be16_roundtrip(0, d[n - 3], d[n - 2]);
            lemma_be16_roundtrip(0, e[n - 3], e[n - 2]);
            assert(seq![d[n - 3], d[n - 2]] != seq![e[n - 3], e[n - 2]]) by {
                if i == n - 3 {
                    assert(seq![d[n - 3], d[n - 2]][0] != seq![e[n - 3], e[n - 2]][0]);
                } else {
                    assert(seq![d[n - 3], d[n - 2]][1] != seq![e[n - 3], e[n - 2]][1]);
                }
            }
        }
        assert(false);
    }
}

/// A BLE Mesh network-layer address.
#[derive(Debug, Clone, Copy, PartialEq, Eq, Structural)]
pub struct MeshAddress(pub u16);

impl MeshAddress {
    /// The address of every node.
    pub fn broadcast() -> (a: MeshAddress)
        ensures
            a.0 == 0xFFFF,
    {
        MeshAddress(0xFFFF)
    }

    /// The address of a node that has none yet.
    pub fn unassigned() -> (a: MeshAddress)
        ensures
            a.0 == 0x0000,
    {
        MeshAddress(0x0000)
    }

    /// Whether this is the broadcast address.
    pub fn is_broadcast(&self) -> (b: bool)
        ensures
            b == (self.0 == 0xFFFF),
    {
        self.0 == 0xFFFF
    }
}

/// Mesh network configuration.
#[derive(Debug, Clone)]
pub struct MeshConfig {
    pub net_key: [u8; 16],
    pub app_key: [u8; 16],
    pub net_index: u16,
    pub iv_index: u32,
    pub ttl: u8,
}

impl Default for MeshConfig {
    /// Zero keys and indices, and a time-to-live of 7 hops.
    fn default() -> (c: Self)
        ensures
            c.net_key@ == Seq::new(16, |i: int| 0u8),
            c.app_key@ == Seq::new(16, |i: int| 0u8),
            c.net_index == 0,
            c.iv_index == 0,
            c.ttl == 7,
    {
        let c = MeshConfig { net_key: [0u8; 16], app_key: [0u8; 16], net_index: 0, iv_index: 0, ttl: 7 };
        assert(c.net_key@ =~= Seq::new(16, |i: int| 0u8));
        assert(c.app_key@ =~= Seq::new(16, |i: int| 0u8));
        c
    }
}

} // verus!
