//! Messages as ordered lists of fields, and their frames.

use crate::codec::{encode_fields, encode_values, values};
use crate::field::{utf8_string, IBField};
use crate::frame::{read_frame, read_frame_spec, FrameError, DEFAULT_FRAME_CAP};
use vstd::prelude::*;
use vstd::utf8::{decode_utf8, valid_utf8};

verus! {

/// Why a frame could not be read as a message.
#[derive(Debug, Clone, Copy, PartialEq, Eq, Structural)]
pub enum MessageError {
    /// The bytes end before the frame does.
    Incomplete,
    /// The frame is over the default cap.
    FrameTooLarge,
    /// The payload is not UTF-8.
    NotUtf8,
}

/// A message that the client sends.
#[derive(Debug, PartialEq)]
pub struct OutboundMessage {
    fields: Vec<IBField>,
}

/// A message that the server sent, with its payload text where it was read
/// from bytes.
#[derive(Debug, PartialEq)]
pub struct InboundMessage {
    fields: Vec<IBField>,
    raw: Option<String>,
}

/// A message of either direction.
#[derive(Debug, PartialEq)]
pub enum Message {
    Inbound(InboundMessage),
    Outbound(OutboundMessage),
}

impl View for OutboundMessage {
    type V = Seq<crate::field::FieldValue>;

    closed spec fn view(&self) -> Seq<crate::field::FieldValue> {
        values(self.fields@)
    }
}

impl View for InboundMessage {
    type V = Seq<crate::field::FieldValue>;

    closed spec fn view(&self) -> Seq<crate::field::FieldValue> {
        values(self.fields@)
    }
}

impl View for Message {
    type V = Seq<crate::field::FieldValue>;

    open spec fn view(&self) -> Seq<crate::field::FieldValue> {
        match self {
            Message::Inbound(m) => m@,
            Message::Outbound(m) => m@,
        }
    }
}

impl OutboundMessage {
    /// A message with no fields.
    pub fn new() -> (r: OutboundMessage)
        ensures
            r@.len() == 0,
    {
        let r = OutboundMessage { fields: Vec::new() };
        assert(r@ =~= seq![]);
        r
    }

    /// Appends a field.
    pub fn add_field(&mut self, v: IBField)
        ensures
            final(self)@ == old(self)@.push(v@),
    {
        let ghost f = v@;
        self.fields.push(v);
        assert(values(self.fields@) =~= values(old(self).fields@).push(f));
    }

    /// The payload of the message: each field's token followed by a null
    /// byte. `write_frame` frames it.
    pub fn to_bytes(&self) -> (r: Vec<u8>)
        ensures
            r@ == encode_values(self@),
    {
        let mut p: Vec<u8> = Vec::new();
        encode_fields(self.fields.as_slice(), &mut p);
        assert(p@ =~= encode_values(self@));
        p
    }
}

impl InboundMessage {
    /// A message with no fields and no payload text.
    pub fn new() -> (r: InboundMessage)
        ensures
            r@.len() == 0,
            r.spec_raw() is None,
    {
        let r = InboundMessage { fields: Vec::new(), raw: None };
        assert(r@ =~= seq![]);
        r
    }

    pub closed spec fn spec_raw(&self) -> Option<Seq<char>> {
        match self.raw {
            Some(s) => Some(s@),
            None => None,
        }
    }

    /// The payload text, where the message was read from bytes.
    pub fn raw(&self) -> (r: Option<String>)
        ensures
            r is None <==> self.spec_raw() is None,
            r matches Some(t) ==> self.spec_raw() == Some(t@),
    {
        match &self.raw {
            Some(t) => Some(t.clone()),
            None => None,
        }
    }

    /// Appends a field.
    pub fn add_field(&mut self, v: IBField)
        ensures
            final(self)@ == old(self)@.push(v@),
            final(self).spec_raw() == old(self).spec_raw(),
    {
        let ghost f = v@;
        self.fields.push(v);
        assert(values(self.fields@) =~= values(old(self).fields@).push(f));
    }

    /// The payload of the message: each field's token followed by a null
    /// byte. `write_frame` frames it.
    pub fn to_bytes(&self) -> (r: Vec<u8>)
        ensures
            r@ == encode_values(self@),
    {
        let mut p: Vec<u8> = Vec::new();
        encode_fields(self.fields.as_slice(), &mut p);
        assert(p@ =~= encode_values(self@));
        p
    }

    /// Reads the frame at the front of `b`, within the default cap, as a
    /// message whose payload text is kept and whose fields are left for the
    /// decoder.
    pub fn from_bytes(b: &[u8]) -> (r: Result<InboundMessage, MessageError>)
        ensures
            inbound_reads_as(b@, r),
    {
        let p = match read_frame(b, DEFAULT_FRAME_CAP) {
            Ok(p) => p,
            Err(FrameError::Incomplete) => {
                return Err(MessageError::Incomplete);
            },
            Err(FrameError::TooLarge) => {
                return Err(MessageError::FrameTooLarge);
            },
        };
        match utf8_string(p.as_slice()) {
            Some(text) => {
                let r = InboundMessage { fields: Vec::new(), raw: Some(text) };
                assert(r@ =~= seq![]);
                Ok(r)
            },
            None => Err(MessageError::NotUtf8),
        }
    }
}

impl Message {
    /// An empty inbound message.
    pub fn new_inbound() -> (r: Message)
        ensures
            r is Inbound,
            r@.len() == 0,
    {
        Message::Inbound(InboundMessage::new())
    }

    /// An empty outbound message.
    pub fn new_outbound() -> (r: Message)
        ensures
            r is Outbound,
            r@.len() == 0,
    {
        Message::Outbound(OutboundMessage::new())
    }

    /// Appends a field, keeping the direction.
    pub fn add_field(&mut self, field: IBField)
        ensures
            final(self)@ == old(self)@.push(field@),
            (*final(self) is Inbound) == (*old(self) is Inbound),
    {
        match self {
            Message::Inbound(msg) => msg.add_field(field),
            Message::Outbound(msg) => msg.add_field(field),
        }
    }

    /// The payload of the message: each field's token followed by a null
    /// byte. `write_frame` frames it.
    pub fn to_bytes(&self) -> (r: Vec<u8>)
        ensures
            r@ == encode_values(self@),
    {
        match self {
            Message::Inbound(msg) => msg.to_bytes(),
            Message::Outbound(msg) => msg.to_bytes(),
        }
    }
}

/// What `InboundMessage::from_bytes` returns on the bytes `b`.
pub open spec fn inbound_reads_as(b: Seq<u8>, r: Result<InboundMessage, MessageError>) -> bool {
    match read_frame_spec(b, DEFAULT_FRAME_CAP as nat) {
        Err(FrameError::Incomplete) => r == Err::<InboundMessage, MessageError>(
            MessageError::Incomplete,
        ),
        Err(FrameError::TooLarge) => r == Err::<InboundMessage, MessageError>(
            MessageError::FrameTooLarge,
        ),
        Ok(p) => if valid_utf8(p) {
            r matches Ok(m) && m@.len() == 0 && m.spec_raw() == Some(decode_utf8(p))
        } else {
            r == Err::<InboundMessage, MessageError>(MessageError::NotUtf8)
        },
    }
}

/// Types that can be read from the bytes of a frame.
pub trait FromBytes: Sized {
    /// Whether `r` is what the bytes `b` read as.
    spec fn reads_as(b: Seq<u8>, r: Result<Message, MessageError>) -> bool;

    fn from_bytes(b: &[u8]) -> (r: Result<Message, MessageError>)
        ensures
            Self::reads_as(b@, r),
    ;
}

impl FromBytes for InboundMessage {
    /// The bytes read as `InboundMessage::from_bytes` says, as an inbound
    /// message.
    open spec fn reads_as(b: Seq<u8>, r: Result<Message, MessageError>) -> bool {
        match r {
            Ok(Message::Inbound(m)) => inbound_reads_as(b, Ok(m)),
            Ok(Message::Outbound(_)) => false,
            Err(e) => inbound_reads_as(b, Err(e)),
        }
    }

    fn from_bytes(b: &[u8]) -> (r: Result<Message, MessageError>) {
        match InboundMessage::from_bytes(b) {
            Ok(m) => Ok(Message::Inbound(m)),
            Err(e) => Err(e),
        }
    }
}

} // verus!
