//! The payload of a control frame: a command-set byte selecting General (0)
//! or LiDAR (1), then one command of that set. Set 2 is reserved for hub
//! devices and rejected.
use vstd::prelude::*;

use crate::frame::ParseError;
use crate::general;
use crate::lidar;
use vstd::slice::slice_subrange;

verus! {

/// A typed request payload.
#[derive(Debug, PartialEq, Eq, Clone, Copy)]
pub enum RequestData {
    General(general::request::Enum),
    LiDAR(lidar::request::Enum),
}

/// A typed response payload.
#[derive(Debug, PartialEq, Eq, Clone, Copy)]
pub enum ResponseData {
    General(general::response::Enum),
    LiDAR(lidar::response::Enum),
}

/// A typed message payload. Only the General set defines messages.
#[derive(Debug, PartialEq, Eq, Clone, Copy)]
pub enum MessageData {
    General(general::message::Enum),
}

impl From<general::request::Enum> for RequestData {
    fn from(value: general::request::Enum) -> (r: Self)
        ensures
            r == RequestData::General(value),
    {
        RequestData::General(value)
    }
}

impl vstd::std_specs::convert::FromSpecImpl<general::request::Enum> for RequestData {
    open spec fn obeys_from_spec() -> bool {
        true
    }

    open spec fn from_spec(value: general::request::Enum) -> Self {
        RequestData::General(value)
    }
}

impl From<lidar::request::Enum> for RequestData {
    fn from(value: lidar::request::Enum) -> (r: Self)
        ensures
            r == RequestData::LiDAR(value),
    {
        RequestData::LiDAR(value)
    }
}

impl vstd::std_specs::convert::FromSpecImpl<lidar::request::Enum> for RequestData {
    open spec fn obeys_from_spec() -> bool {
        true
    }

    open spec fn from_spec(value: lidar::request::Enum) -> Self {
        RequestData::LiDAR(value)
    }
}

impl From<general::response::Enum> for ResponseData {
    fn from(value: general::response::Enum) -> (r: Self)
        ensures
            r == ResponseData::General(value),
    {
        ResponseData::General(value)
    }
}

impl vstd::std_specs::convert::FromSpecImpl<general::response::Enum> for ResponseData {
    open spec fn obeys_from_spec() -> bool {
        true
    }

    open spec fn from_spec(value: general::response::Enum) -> Self {
        ResponseData::General(value)
    }
}

impl From<lidar::response::Enum> for ResponseData {
    fn from(value: lidar::response::Enum) -> (r: Self)
        ensures
            r == ResponseData::LiDAR(value),
    {
        ResponseData::LiDAR(value)
    }
}

impl vstd::std_specs::convert::FromSpecImpl<lidar::response::Enum> for ResponseData {
    open spec fn obeys_from_spec() -> bool {
        true
    }

    open spec fn from_spec(value: lidar::response::Enum) -> Self {
        ResponseData::LiDAR(value)
    }
}

impl From<general::message::Enum> for MessageData {
    fn from(value: general::message::Enum) -> (r: Self)
        ensures
            r == MessageData::General(value),
    {
        MessageData::General(value)
    }
}

impl vstd::std_specs::convert::FromSpecImpl<general::message::Enum> for MessageData {
    open spec fn obeys_from_spec() -> bool {
        true
    }

    open spec fn from_spec(value: general::message::Enum) -> Self {
        MessageData::General(value)
    }
}

impl RequestData {
    /// The wire bytes: command-set byte, command id, body.
    pub open spec fn spec_bytes(self) -> Seq<u8> {
        match self {
            RequestData::General(e) => seq![0x00u8] + e.spec_bytes(),
            RequestData::LiDAR(e) => seq![0x01u8] + e.spec_bytes(),
        }
    }

    /// The request carried by `s`: `InvalidCommandType` on a missing or
    /// unknown command set, `InvalidData` on an unknown id or a body of the
    /// wrong size.
    pub open spec fn spec_decode(s: Seq<u8>) -> Result<RequestData, ParseError> {
        if s.len() == 0 {
            Err(ParseError::InvalidCommandType)
        } else if s[0] == 0x00 {
            match general::request::Enum::spec_decode(s.skip(1)) {
                Some(e) => Ok(RequestData::General(e)),
                None => Err(ParseError::InvalidData),
            }
        } else if s[0] == 0x01 {
            match lidar::request::Enum::spec_decode(s.skip(1)) {
                Some(e) => Ok(RequestData::LiDAR(e)),
                None => Err(ParseError::InvalidData),
            }
        } else {
            Err(ParseError::InvalidCommandType)
        }
    }

    /// Append this request's wire bytes.
    pub fn encode(&self, out: &mut Vec<u8>)
        ensures
            final(out)@ == old(out)@ + self.spec_bytes(),
    {
        match self {
            RequestData::General(e) => {
                out.push(0x00);
                e.encode(out);
            },
            RequestData::LiDAR(e) => {
                out.push(0x01);
                e.encode(out);
            },
        }
        assert(out@ =~= old(out)@ + self.spec_bytes());
    }

    /// Decode one request payload from `bytes`.
    pub fn decode(bytes: &[u8]) -> (r: Result<RequestData, ParseError>)
        ensures
            r == RequestData::spec_decode(bytes@),
    {
        if bytes.len() == 0 {
            return Err(ParseError::InvalidCommandType);
        }
        let rest = slice_subrange(bytes, 1, bytes.len());
        assert(rest@ =~= bytes@.skip(1));
        match bytes[0] {
            0x00 => match general::request::Enum::decode(rest) {
                Some(e) => Ok(RequestData::General(e)),
                None => Err(ParseError::InvalidData),
            },
            0x01 => match lidar::request::Enum::decode(rest) {
                Some(e) => Ok(RequestData::LiDAR(e)),
                None => Err(ParseError::InvalidData),
            },
            _ => Err(ParseError::InvalidCommandType),
        }
    }

    /// Decoding a request payload's own wire bytes yields it again.
    pub proof fn lemma_roundtrip(d: RequestData)
        ensures
            RequestData::spec_decode(d.spec_bytes()) == Ok::<RequestData, ParseError>(d),
    {
        match d {
            RequestData::General(e) => {
                assert(d.spec_bytes().skip(1) =~= e.spec_bytes());
                general::request::Enum::lemma_roundtrip(e);
            },
            RequestData::LiDAR(e) => {
                assert(d.spec_bytes().skip(1) =~= e.spec_bytes());
                lidar::request::Enum::lemma_roundtrip(e);
            },
        }
    }

    /// Every request payload fits comfortably inside a 16-bit frame length.
    pub proof fn lemma_bytes_len(d: RequestData)
        ensures
            1 <= d.spec_bytes().len() <= 32,
    {
    }
}

impl ResponseData {
    /// The wire bytes: command-set byte, command id, body.
    pub open spec fn spec_bytes(self) -> Seq<u8> {
        match self {
            ResponseData::General(e) => seq![0x00u8] + e.spec_bytes(),
            ResponseData::LiDAR(e) => seq![0x01u8] + e.spec_bytes(),
        }
    }

    /// The response carried by `s`, with errors as in
    /// [`RequestData::spec_decode`].
    pub open spec fn spec_decode(s: Seq<u8>) -> Result<ResponseData, ParseError> {
        if s.len() == 0 {
            Err(ParseError::InvalidCommandType)
        } else if s[0] == 0x00 {
            match general::response::Enum::spec_decode(s.skip(1)) {
                Some(e) => Ok(ResponseData::General(e)),
                None => Err(ParseError::InvalidData),
            }
        } else if s[0] == 0x01 {
            match lidar::response::Enum::spec_decode(s.skip(1)) {
                Some(e) => Ok(ResponseData::LiDAR(e)),
                None => Err(ParseError::InvalidData),
            }
        } else {
            Err(ParseError::InvalidCommandType)
        }
    }

    /// Append this response's wire bytes.
    pub fn encode(&self, out: &mut Vec<u8>)
        ensures
            final(out)@ == old(out)@ + self.spec_bytes(),
    {
        match self {
            ResponseData::General(e) => {
                out.push(0x00);
                e.encode(out);
            },
            ResponseData::LiDAR(e) => {
                out.push(0x01);
                e.encode(out);
            },
        }
        assert(out@ =~= old(out)@ + self.spec_bytes());
    }

    /// Decode one response payload from `bytes`.
    pub fn decode(bytes: &[u8]) -> (r: Result<ResponseData, ParseError>)
        ensures
            r == ResponseData::spec_decode(bytes@),
    {
        if bytes.len() == 0 {
            return Err(ParseError::InvalidCommandType);
        }
        let rest = slice_subrange(bytes, 1, bytes.len());
        assert(rest@ =~= bytes@.skip(1));
        match bytes[0] {
            0x00 => match general::response::Enum::decode(rest) {
                Some(e) => Ok(ResponseData::General(e)),
                None => Err(ParseError::InvalidData),
            },
            0x01 => match lidar::response::Enum::decode(rest) {
                Some(e) => Ok(ResponseData::LiDAR(e)),
                None => Err(ParseError::InvalidData),
            },
            _ => Err(ParseError::InvalidCommandType),
        }
    }

    /// Decoding a response payload's own wire bytes yields it again.
    pub proof fn lemma_roundtrip(d: ResponseData)
        ensures
            ResponseData::spec_decode(d.spec_bytes()) == Ok::<ResponseData, ParseError>(d),
    {
        match d {
            ResponseData::General(e) => {
                assert(d.spec_bytes().skip(1) =~= e.spec_bytes());
                general::response::Enum::lemma_roundtrip(e);
            },
            ResponseData::LiDAR(e) => {
                assert(d.spec_bytes().skip(1) =~= e.spec_bytes());
                lidar::response::Enum::lemma_roundtrip(e);
            },
        }
    }

    /// Every response payload fits comfortably inside a 16-bit frame length.
    pub proof fn lemma_bytes_len(d: ResponseData)
        ensures
            1 <= d.spec_bytes().len() <= 32,
    {
    }
}

impl MessageData {
    /// The wire bytes: command-set byte, command id, body.
    pub open spec fn spec_bytes(self) -> Seq<u8> {
        match self {
            MessageData::General(e) => seq![0x00u8] + e.spec_bytes(),
        }
    }

    /// The message carried by `s`, with errors as in
    /// [`RequestData::spec_decode`].
    pub open spec fn spec_decode(s: Seq<u8>) -> Result<MessageData, ParseError> {
        if s.len() == 0 {
            Err(ParseError::InvalidCommandType)
        } else if s[0] == 0x00 {
            match general::message::Enum::spec_decode(s.skip(1)) {
                Some(e) => Ok(MessageData::General(e)),
                None => Err(ParseError::InvalidData),
            }
        } else {
            Err(ParseError::InvalidCommandType)
        }
    }

    /// Append this message's wire bytes.
    pub fn encode(&self, out: &mut Vec<u8>)
        ensures
            final(out)@ == old(out)@ + self.spec_bytes(),
    {
        match self {
            MessageData::General(e) => {
                out.push(0x00);
                e.encode(out);
            },
        }
        assert(out@ =~= old(out)@ + self.spec_bytes());
    }

    /// Decode one message payload from `bytes`.
    pub fn decode(bytes: &[u8]) -> (r: Result<MessageData, ParseError>)
        ensures
            r == MessageData::spec_decode(bytes@),
    {
        if bytes.len() == 0 {
            return Err(ParseError::InvalidCommandType);
        }
        let rest = slice_subrange(bytes, 1, bytes.len());
        assert(rest@ =~= bytes@.skip(1));
        match bytes[0] {
            0x00 => match general::message::Enum::decode(rest) {
                Some(e) => Ok(MessageData::General(e)),
                None => Err(ParseError::InvalidData),
            },
            _ => Err(ParseError::InvalidCommandType),
        }
    }

    /// Decoding a message payload's own wire bytes yields it again.
    pub proof fn lemma_roundtrip(d: MessageData)
        ensures
            MessageData::spec_decode(d.spec_bytes()) == Ok::<MessageData, ParseError>(d),
    {
        match d {
            MessageData::General(e) => {
                assert(d.spec_bytes().skip(1) =~= e.spec_bytes());
                general::message::Enum::lemma_roundtrip(e);
            },
        }
    }

    /// Every message payload fits comfortably inside a 16-bit frame length.
    pub proof fn lemma_bytes_len(d: MessageData)
        ensures
            1 <= d.spec_bytes().len() <= 32,
    {
    }
}

} // verus!
