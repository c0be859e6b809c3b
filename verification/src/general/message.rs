//! Unsolicited message bodies of the General command set.
use vstd::prelude::*;

use crate::bytes_le::{get_le16, get_le32, le16, le32, push_le16, push_le32, u16_of, u32_of};
use crate::traits::Message;

verus! {

broadcast use vstd::array::group_array_axioms;

/// The discovery announcement a sensor broadcasts until a handshake binds it
/// (id 0x00): its 16-byte code (15 ASCII characters and a trailing NUL) and
/// its device type.
#[derive(Debug, PartialEq, Eq, Clone, Copy)]
pub struct BroadcastMessage {
    pub broadcast_code: [u8; 16],
    pub dev_type: u8,
    pub reserved: u16,
}

/// Pushed when the device reports an abnormal status (id 0x07).
#[derive(Debug, PartialEq, Eq, Clone, Copy)]
pub struct PushAbnormalStatusInformation {
    pub status_code: u32,
}

impl Message for BroadcastMessage {

}

impl Message for PushAbnormalStatusInformation {

}

/// A message of the General set: one byte of command id, then the body.
#[derive(Debug, PartialEq, Eq, Clone, Copy)]
pub enum Enum {
    BroadcastMessage(BroadcastMessage),
    PushAbnormalStatusInformation(PushAbnormalStatusInformation),
}

impl Enum {
    /// The wire bytes of this message: command id, then the packed body.
    pub open spec fn spec_bytes(self) -> Seq<u8> {
        match self {
            Enum::BroadcastMessage(b) => seq![0x00u8] + b.broadcast_code@ + seq![b.dev_type] + le16(
                b.reserved,
            ),
            Enum::PushAbnormalStatusInformation(b) => seq![0x07u8] + le32(b.status_code),
        }
    }

    /// The message carried by `s`, if its command id is known and its body
    /// has exactly the body's size.
    pub open spec fn spec_decode(s: Seq<u8>) -> Option<Enum> {
        if s.len() == 0 {
            None
        } else if s[0] == 0x00 {
            if s.len() == 20 {
                Some(
                    Enum::BroadcastMessage(
                        BroadcastMessage {
                            broadcast_code: [
                                s[1],
                                s[2],
                                s[3],
                                s[4],
                                s[5],
                                s[6],
                                s[7],
                                s[8],
                                s[9],
                                s[10],
                                s[11],
                                s[12],
                                s[13],
                                s[14],
                                s[15],
                                s[16],
                            ],
                            dev_type: s[17],
                            reserved: u16_of(s[18], s[19]),
                        },
                    ),
                )
            } else {
                None
            }
        } else if s[0] == 0x07 {
            if s.len() == 5 {
                Some(
                    Enum::PushAbnormalStatusInformation(
                        PushAbnormalStatusInformation { status_code: u32_of(s[1], s[2], s[3], s[4]) },
                    ),
                )
            } else {
                None
            }
        } else {
            None
        }
    }

    /// Append this message's wire bytes.
    pub fn encode(&self, out: &mut Vec<u8>)
        ensures
            final(out)@ == old(out)@ + self.spec_bytes(),
    {
        match self {
            Enum::BroadcastMessage(b) => {
                out.push(0x00);
                let mut i: usize = 0;
                while i < 16
                    invariant
                        i <= 16,
                        out@ == old(out)@ + seq![0x00u8] + b.broadcast_code@.take(i as int),
                    decreases 16 - i,
                {
                    out.push(b.broadcast_code[i]);
                    i = i + 1;
                    assert(out@ =~= old(out)@ + seq![0x00u8] + b.broadcast_code@.take(i as int));
                }
                assert(b.broadcast_code@.take(16) =~= b.broadcast_code@);
                out.push(b.dev_type);
                push_le16(out, b.reserved);
            },
            Enum::PushAbnormalStatusInformation(b) => {
                out.push(0x07);
                push_le32(out, b.status_code);
            },
        }
        assert(out@ =~= old(out)@ + self.spec_bytes());
    }

    /// Decode one message from `bytes`.
    pub fn decode(bytes: &[u8]) -> (r: Option<Enum>)
        ensures
            r == Enum::spec_decode(bytes@),
    {
        if bytes.len() == 0 {
            return None;
        }
        let id = bytes[0];
        let n = bytes.len();
        match id {
            0x00 => {
                if n == 20 {
                    Some(
                        Enum::BroadcastMessage(
                            BroadcastMessage {
                                broadcast_code: [
                                    bytes[1],
                                    bytes[2],
                                    bytes[3],
                                    bytes[4],
                                    bytes[5],
                                    bytes[6],
                                    bytes[7],
                                    bytes[8],
                                    bytes[9],
                                    bytes[10],
                                    bytes[11],
                                    bytes[12],
                                    bytes[13],
                                    bytes[14],
                                    bytes[15],
                                    bytes[16],
                                ],
                                dev_type: bytes[17],
                                reserved: get_le16(bytes, 18),
                            },
                        ),
                    )
                } else {
                    None
                }
            },
            0x07 => {
                if n == 5 {
                    Some(
                        Enum::PushAbnormalStatusInformation(
                            PushAbnormalStatusInformation { status_code: get_le32(bytes, 1) },
                        ),
                    )
                } else {
                    None
                }
            },
            _ => None,
        }
    }

    /// Decoding a message's own wire bytes yields the message again.
    pub proof fn lemma_roundtrip(e: Enum)
        ensures
            Enum::spec_decode(e.spec_bytes()) == Some(e),
    {
        broadcast use crate::bytes_le::lemma_le16_roundtrip, crate::bytes_le::lemma_le32_roundtrip;

        let s = e.spec_bytes();
        match e {
            Enum::BroadcastMessage(b) => {
                assert([
                    s[1],
                    s[2],
                    s[3],
                    s[4],
                    s[5],
                    s[6],
                    s[7],
                    s[8],
                    s[9],
                    s[10],
                    s[11],
                    s[12],
                    s[13],
                    s[14],
                    s[15],
                    s[16],
                ] =~= b.broadcast_code);
            },
            _ => {},
        }
    }
}

} // verus!
