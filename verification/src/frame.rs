//! The control-frame envelope: a start-of-frame byte, a 16-bit total length,
//! a command type, a sequence number, a CRC-16 over the seven header bytes,
//! the payload, and a CRC-32 over everything before it.
use vstd::prelude::*;

use crate::bytes_le::{
    get_le16, get_le32, le16, le32, push_le16, push_le32, u16_of, u32_of,
    lemma_le16_roundtrip, lemma_le32_roundtrip,
};
use crate::checksum::{
    crc16_checksum, crc16_of, crc32_checksum, crc32_of, FRAME_CRC_SEED, HEADER_CRC_SEED,
};
use crate::payload::{MessageData, RequestData, ResponseData};
use vstd::slice::slice_subrange;

verus! {

/// Why a buffer failed to parse as a control frame or a point-cloud frame.
#[derive(Debug, PartialEq, Eq, Clone, Copy)]
pub enum ParseError {
    /// The first byte was not the start-of-frame constant.
    InvalidSOF,
    /// Reserved for a version check; the codec accepts any version byte.
    InvalidVersion,
    /// The buffer is shorter than its declared length, or the declared
    /// length cannot hold a frame.
    InvalidLength,
    /// The stored header checksum does not match the computed one.
    InvalidCrc16 { frame: u16, calculated: u16 },
    /// The stored whole-frame checksum does not match the computed one.
    InvalidCrc32,
    /// An unknown command type or command set.
    InvalidCommandType,
    /// An unknown command id, or a body of the wrong size.
    InvalidData,
    /// A point-cloud datagram that does not carry exactly 96 records.
    WrongPointCloudSize,
}

/// The payload of a control frame, discriminated by the command-type byte.
#[derive(Debug, PartialEq, Eq, Clone, Copy)]
pub enum FrameData {
    Request(RequestData),
    Response(ResponseData),
    Message(MessageData),
}

impl FrameData {
    /// The command-type byte: 0 request, 1 response, 2 message.
    pub open spec fn cmd_type(self) -> u8 {
        match self {
            FrameData::Request(_) => 0x00,
            FrameData::Response(_) => 0x01,
            FrameData::Message(_) => 0x02,
        }
    }

    /// The payload bytes: command set, command id, body.
    pub open spec fn payload(self) -> Seq<u8> {
        match self {
            FrameData::Request(d) => d.spec_bytes(),
            FrameData::Response(d) => d.spec_bytes(),
            FrameData::Message(d) => d.spec_bytes(),
        }
    }

    /// The payload carried by `s` for the command type `cmd_type`.
    #[verifier::opaque]
    pub open spec fn spec_decode(cmd_type: u8, s: Seq<u8>) -> Result<FrameData, ParseError> {
        if cmd_type == 0x00 {
            match RequestData::spec_decode(s) {
                Ok(d) => Ok(FrameData::Request(d)),
                Err(e) => Err(e),
            }
        } else if cmd_type == 0x01 {
            match ResponseData::spec_decode(s) {
                Ok(d) => Ok(FrameData::Response(d)),
                Err(e) => Err(e),
            }
        } else if cmd_type == 0x02 {
            match MessageData::spec_decode(s) {
                Ok(d) => Ok(FrameData::Message(d)),
                Err(e) => Err(e),
            }
        } else {
            Err(ParseError::InvalidCommandType)
        }
    }

    /// The command-type byte, executably.
    pub fn cmd_type_byte(&self) -> (r: u8)
        ensures
            r == self.cmd_type(),
    {
        match self {
            FrameData::Request(_) => 0x00,
            FrameData::Response(_) => 0x01,
            FrameData::Message(_) => 0x02,
        }
    }

    /// Append this payload's wire bytes.
    pub fn encode(&self, out: &mut Vec<u8>)
        ensures
            final(out)@ == old(out)@ + self.payload(),
    {
        match self {
            FrameData::Request(d) => d.encode(out),
            FrameData::Response(d) => d.encode(out),
            FrameData::Message(d) => d.encode(out),
        }
    }

    /// Decode the payload of a frame of command type `cmd_type`.
    pub fn decode(cmd_type: u8, bytes: &[u8]) -> (r: Result<FrameData, ParseError>)
        ensures
            r == FrameData::spec_decode(cmd_type, bytes@),
    {
        proof {
            reveal(FrameData::spec_decode);
        }
        match cmd_type {
            0x00 => match RequestData::decode(bytes) {
                Ok(d) => Ok(FrameData::Request(d)),
                Err(e) => Err(e),
            },
            0x01 => match ResponseData::decode(bytes) {
                Ok(d) => Ok(FrameData::Response(d)),
                Err(e) => Err(e),
            },
            0x02 => match MessageData::decode(bytes) {
                Ok(d) => Ok(FrameData::Message(d)),
                Err(e) => Err(e),
            },
            _ => Err(ParseError::InvalidCommandType),
        }
    }

    /// Decoding a payload's own wire bytes yields it again.
    pub proof fn lemma_roundtrip(d: FrameData)
        ensures
            FrameData::spec_decode(d.cmd_type(), d.payload()) == Ok::<FrameData, ParseError>(d),
    {
        reveal(FrameData::spec_decode);
        match d {
            FrameData::Request(p) => RequestData::lemma_roundtrip(p),
            FrameData::Response(p) => ResponseData::lemma_roundtrip(p),
            FrameData::Message(p) => MessageData::lemma_roundtrip(p),
        }
    }

    /// Every payload is short: far below the 16-bit frame-length bound.
    pub proof fn lemma_payload_len(d: FrameData)
        ensures
            1 <= d.payload().len() <= 32,
    {
        match d {
            FrameData::Request(p) => RequestData::lemma_bytes_len(p),
            FrameData::Response(p) => ResponseData::lemma_bytes_len(p),
            FrameData::Message(p) => MessageData::lemma_bytes_len(p),
        }
    }
}

impl From<RequestData> for FrameData {
    fn from(value: RequestData) -> (r: Self)
        ensures
            r == FrameData::Request(value),
    {
        FrameData::Request(value)
    }
}

impl vstd::std_specs::convert::FromSpecImpl<RequestData> for FrameData {
    open spec fn obeys_from_spec() -> bool {
        true
    }

    open spec fn from_spec(value: RequestData) -> Self {
        FrameData::Request(value)
    }
}

impl From<ResponseData> for FrameData {
    fn from(value: ResponseData) -> (r: Self)
        ensures
            r == FrameData::Response(value),
    {
        FrameData::Response(value)
    }
}

impl vstd::std_specs::convert::FromSpecImpl<ResponseData> for FrameData {
    open spec fn obeys_from_spec() -> bool {
        true
    }

    open spec fn from_spec(value: ResponseData) -> Self {
        FrameData::Response(value)
    }
}

impl From<MessageData> for FrameData {
    fn from(value: MessageData) -> (r: Self)
        ensures
            r == FrameData::Message(value),
    {
        FrameData::Message(value)
    }
}

impl vstd::std_specs::convert::FromSpecImpl<MessageData> for FrameData {
    open spec fn obeys_from_spec() -> bool {
        true
    }

    open spec fn from_spec(value: MessageData) -> Self {
        FrameData::Message(value)
    }
}

/// A control frame: the typed payload together with the protocol version
/// and sequence number of its envelope.
#[derive(Debug, PartialEq, Eq, Clone, Copy)]
pub struct ControlFrame {
    /// Protocol version, 1 for the current version. Captured, not checked.
    pub version: u8,
    /// The command type and payload.
    pub data: FrameData,
    /// Frame sequence number, increasing per command socket.
    pub seq_num: u16,
}

impl ControlFrame {
    /// Start-of-frame constant, the first byte of every control frame.
    pub const SOF: u8 = 0xAA;

    /// Total frame length on the wire: 9 header bytes, the payload, and the
    /// 4-byte frame checksum.
    pub open spec fn wire_len(self) -> int {
        self.data.payload().len() as int + 13
    }

    /// The first seven bytes: SOF, version, length, command type, sequence
    /// number. The header checksum covers exactly these.
    pub open spec fn header_bytes(self) -> Seq<u8> {
        seq![0xAAu8, self.version] + le16(self.wire_len() as u16) + seq![self.data.cmd_type()]
            + le16(self.seq_num)
    }

    /// The complete wire bytes of this frame.
    pub open spec fn spec_bytes(self) -> Seq<u8> {
        let covered = self.header_bytes() + le16(
            crc16_of(HEADER_CRC_SEED, self.header_bytes()),
        ) + self.data.payload();
        covered + le32(crc32_of(FRAME_CRC_SEED, covered))
    }

    /// The frame carried by `s`, or the first failure in validation order:
    /// start byte, declared length, header checksum, frame checksum,
    /// command type, command set, command id and body. Bytes beyond the
    /// declared length are ignored.
    pub open spec fn spec_parse(s: Seq<u8>) -> Result<ControlFrame, ParseError> {
        if s.len() == 0 {
            Err(ParseError::InvalidLength)
        } else if s[0] != 0xAA {
            Err(ParseError::InvalidSOF)
        } else if s.len() < 4 {
            Err(ParseError::InvalidLength)
        } else {
            let flen = u16_of(s[2], s[3]) as int;
            if flen < 13 || s.len() < flen {
                Err(ParseError::InvalidLength)
            } else {
                let stored16 = u16_of(s[7], s[8]);
                let calc16 = crc16_of(HEADER_CRC_SEED, s.take(7));
                if stored16 != calc16 {
                    Err(ParseError::InvalidCrc16 { frame: stored16, calculated: calc16 })
                } else {
                    let stored32 = u32_of(s[flen - 4], s[flen - 3], s[flen - 2], s[flen - 1]);
                    let calc32 = crc32_of(FRAME_CRC_SEED, s.take(flen - 4));
                    if stored32 != calc32 {
                        Err(ParseError::InvalidCrc32)
                    } else {
                        match FrameData::spec_decode(s[4], s.subrange(9, flen - 4)) {
                            Ok(data) => Ok(
                                ControlFrame {
                                    version: s[1],
                                    data,
                                    seq_num: u16_of(s[5], s[6]),
                                },
                            ),
                            Err(e) => Err(e),
                        }
                    }
                }
            }
        }
    }

    /// Serialize this frame into its wire bytes.
    pub fn serialize(&self) -> (r: Vec<u8>)
        ensures
            r@ == self.spec_bytes(),
    {
        proof {
            FrameData::lemma_payload_len(self.data);
        }
        let mut payload: Vec<u8> = Vec::new();
        self.data.encode(&mut payload);
        let total_len: u16 = payload.len() as u16 + 13;

        let mut out: Vec<u8> = Vec::new();
        out.push(ControlFrame::SOF);
        out.push(self.version);
        push_le16(&mut out, total_len);
        out.push(self.data.cmd_type_byte());
        push_le16(&mut out, self.seq_num);
        assert(out@ =~= self.header_bytes());

        let c16 = crc16_checksum(HEADER_CRC_SEED, out.as_slice());
        push_le16(&mut out, c16);
        out.append(&mut payload);
        assert(out@ =~= self.header_bytes() + le16(
            crc16_of(HEADER_CRC_SEED, self.header_bytes()),
        ) + self.data.payload());

        let c32 = crc32_checksum(FRAME_CRC_SEED, out.as_slice());
        push_le32(&mut out, c32);
        assert(out@ =~= self.spec_bytes());
        out
    }

    /// Parse one control frame from the start of `bytes`.
    pub fn parse(bytes: &[u8]) -> (r: Result<ControlFrame, ParseError>)
        ensures
            r == ControlFrame::spec_parse(bytes@),
            bytes@.len() > 0 && bytes@[0] != 0xAA ==> r == Err::<ControlFrame, ParseError>(
                ParseError::InvalidSOF,
            ),
    {
        if bytes.len() == 0 {
            return Err(ParseError::InvalidLength);
        }
        if bytes[0] != ControlFrame::SOF {
            return Err(ParseError::InvalidSOF);
        }
        if bytes.len() < 4 {
            return Err(ParseError::InvalidLength);
        }
        let flen = get_le16(bytes, 2) as usize;
        if flen < 13 || bytes.len() < flen {
            return Err(ParseError::InvalidLength);
        }
        let stored16 = get_le16(bytes, 7);
        let calc16 = crc16_checksum(HEADER_CRC_SEED, slice_subrange(bytes, 0, 7));
        assert(bytes@.subrange(0, 7) =~= bytes@.take(7));
        if stored16 != calc16 {
            return Err(ParseError::InvalidCrc16 { frame: stored16, calculated: calc16 });
        }
        let stored32 = get_le32(bytes, flen - 4);
        let calc32 = crc32_checksum(FRAME_CRC_SEED, slice_subrange(bytes, 0, flen - 4));
        assert(bytes@.subrange(0, flen - 4) =~= bytes@.take(flen - 4));
        if stored32 != calc32 {
            return Err(ParseError::InvalidCrc32);
        }
        match FrameData::decode(bytes[4], slice_subrange(bytes, 9, flen - 4)) {
            Ok(data) => Ok(
                ControlFrame { version: bytes[1], data, seq_num: get_le16(bytes, 5) },
            ),
            Err(e) => Err(e),
        }
    }

    /// Round trip: parsing a frame's own wire bytes yields the frame again.
    pub proof fn lemma_parse_roundtrip(f: ControlFrame)
        ensures
            ControlFrame::spec_parse(f.spec_bytes()) == Ok::<ControlFrame, ParseError>(f),
    {
        broadcast use lemma_le16_roundtrip, lemma_le32_roundtrip;

        FrameData::lemma_payload_len(f.data);
        let h = f.header_bytes();
        let covered = h + le16(crc16_of(HEADER_CRC_SEED, h)) + f.data.payload();
        let s = f.spec_bytes();
        assert(s.take(7) =~= h);
        assert(u16_of(s[2], s[3]) == f.wire_len() as u16);
        assert(u16_of(s[7], s[8]) == crc16_of(HEADER_CRC_SEED, s.take(7)));
        assert(s.take(f.wire_len() - 4) =~= covered);
        assert(u32_of(
            s[f.wire_len() - 4],
            s[f.wire_len() - 3],
            s[f.wire_len() - 2],
            s[f.wire_len() - 1],
        ) == crc32_of(FRAME_CRC_SEED, covered));
        assert(s.subrange(9, f.wire_len() - 4) =~= f.data.payload());
        FrameData::lemma_roundtrip(f.data);
        assert(u16_of(s[5], s[6]) == f.seq_num);
    }

    /// Bytes beyond a frame's declared length do not disturb it: each
    /// datagram carries one frame, and whatever follows it is ignored.
    pub proof fn lemma_trailing_bytes_ignored(f: ControlFrame, extra: Seq<u8>)
        ensures
            ControlFrame::spec_parse(f.spec_bytes() + extra) == Ok::<ControlFrame, ParseError>(f),
    {
        broadcast use lemma_le16_roundtrip, lemma_le32_roundtrip;

        FrameData::lemma_payload_len(f.data);
        let h = f.header_bytes();
        let covered = h + le16(crc16_of(HEADER_CRC_SEED, h)) + f.data.payload();
        let s = f.spec_bytes() + extra;
        assert(s.take(7) =~= h);
        assert(u16_of(s[2], s[3]) == f.wire_len() as u16);
        assert(u16_of(s[7], s[8]) == crc16_of(HEADER_CRC_SEED, s.take(7)));
        assert(s.take(f.wire_len() - 4) =~= covered);
        assert(u32_of(
            s[f.wire_len() - 4],
            s[f.wire_len() - 3],
            s[f.wire_len() - 2],
            s[f.wire_len() - 1],
        ) == crc32_of(FRAME_CRC_SEED, covered));
        assert(s.subrange(9, f.wire_len() - 4) =~= f.data.payload());
        FrameData::lemma_roundtrip(f.data);
        assert(u16_of(s[5], s[6]) == f.seq_num);
    }

    /// Facts every corruption argument needs about a frame's own bytes.
    proof fn lemma_bytes_facts(f: ControlFrame)
        ensures
            f.spec_bytes().len() == f.wire_len(),
            13 <= f.wire_len() <= 45,
            f.spec_bytes()[0] == 0xAA,
            u16_of(f.spec_bytes()[2], f.spec_bytes()[3]) as int == f.wire_len(),
            f.spec_bytes().take(7) == f.header_bytes(),
            u16_of(f.spec_bytes()[7], f.spec_bytes()[8]) == crc16_of(
                HEADER_CRC_SEED,
                f.spec_bytes().take(7),
            ),
            u32_of(
                f.spec_bytes()[f.wire_len() - 4],
                f.spec_bytes()[f.wire_len() - 3],
                f.spec_bytes()[f.wire_len() - 2],
                f.spec_bytes()[f.wire_len() - 1],
            ) == crc32_of(FRAME_CRC_SEED, f.spec_bytes().take(f.wire_len() - 4)),
    {
        broadcast use lemma_le16_roundtrip, lemma_le32_roundtrip;

        FrameData::lemma_payload_len(f.data);
        let h = f.header_bytes();
        let covered = h + le16(crc16_of(HEADER_CRC_SEED, h)) + f.data.payload();
        let s = f.spec_bytes();
        assert(s.take(7) =~= h);
        assert(s.take(f.wire_len() - 4) =~= covered);
    }

    /// Corrupting one byte of the header region of a frame's bytes (past
    /// the start byte and the length field) is reported as `InvalidCrc16`,
    /// unless the corrupted header's checksum collides with the stored one
    /// — which only an altered covered byte, not an altered stored
    /// checksum, could produce.
    #[verifier::rlimit(100)]
    #[verifier::spinoff_prover]
    pub proof fn lemma_corrupt_header_detected(f: ControlFrame, s2: Seq<u8>, i: int)
        requires
            s2.len() == f.spec_bytes().len(),
            1 <= i < 9,
            i != 2,
            i != 3,
            s2[i] != f.spec_bytes()[i],
            forall|j: int| 0 <= j < s2.len() && j != i ==> s2[j] == f.spec_bytes()[j],
        ensures
            ControlFrame::spec_parse(s2) == Err::<ControlFrame, ParseError>(
                ParseError::InvalidCrc16 {
                    frame: u16_of(s2[7], s2[8]),
                    calculated: crc16_of(HEADER_CRC_SEED, s2.take(7)),
                },
            ) || (i < 7 && crc16_of(HEADER_CRC_SEED, s2.take(7)) == u16_of(s2[7], s2[8])),
    {
        ControlFrame::lemma_bytes_facts(f);
        let s1 = f.spec_bytes();
        assert(u16_of(s2[2], s2[3]) == u16_of(s1[2], s1[3]));
        if i >= 7 {
            assert(s2.take(7) =~= s1.take(7));
            crate::bytes_le::lemma_u16_of_injective(s2[7], s2[8], s1[7], s1[8]);
        }
    }

    /// Corrupting one byte of the length-covered region past the header
    /// (payload or stored frame checksum) is reported as `InvalidCrc32`,
    /// unless the corrupted region's checksum collides with the stored one;
    /// corrupting the stored checksum itself is always reported.
    #[verifier::rlimit(100)]
    #[verifier::spinoff_prover]
    pub proof fn lemma_corrupt_covered_detected(f: ControlFrame, s2: Seq<u8>, i: int)
        requires
            s2.len() == f.spec_bytes().len(),
            9 <= i < f.wire_len(),
            s2[i] != f.spec_bytes()[i],
            forall|j: int| 0 <= j < s2.len() && j != i ==> s2[j] == f.spec_bytes()[j],
        ensures
            ControlFrame::spec_parse(s2) == Err::<ControlFrame, ParseError>(ParseError::InvalidCrc32)
                || crc32_of(FRAME_CRC_SEED, s2.take(f.wire_len() - 4)) == u32_of(
                s2[f.wire_len() - 4],
                s2[f.wire_len() - 3],
                s2[f.wire_len() - 2],
                s2[f.wire_len() - 1],
            ),
            i >= f.wire_len() - 4 ==> ControlFrame::spec_parse(s2) == Err::<
                ControlFrame,
                ParseError,
            >(ParseError::InvalidCrc32),
    {
        ControlFrame::lemma_bytes_facts(f);
        let s1 = f.spec_bytes();
        let flen = f.wire_len();
        assert(u16_of(s2[2], s2[3]) == u16_of(s1[2], s1[3]));
        assert(s2.take(7) =~= s1.take(7));
        if i >= flen - 4 {
            assert(s2.take(flen - 4) =~= s1.take(flen - 4));
            crate::bytes_le::lemma_u32_of_injective(
                s2[flen - 4],
                s2[flen - 3],
                s2[flen - 2],
                s2[flen - 1],
                s1[flen - 4],
                s1[flen - 3],
                s1[flen - 2],
                s1[flen - 1],
            );
        }
    }
}

} // verus!
