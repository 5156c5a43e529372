//! Tagged messages: a leading byte tells data from acknowledgement.

use vstd::prelude::*;

verus! {

/// A message with its kind spelled out.
#[derive(Clone, Copy, PartialEq, Eq, Structural, Debug)]
pub enum Message {
    Data { id: u8, data: u8 },
    Ack { id: u8 },
}

/// The bytes that stand for `m`: the tag, the id, and for data the payload.
pub open spec fn spec_marshall(m: Message) -> Seq<u8> {
    match m {
        Message::Data { id, data } => seq![0u8, id, data],
        Message::Ack { id } => seq![1u8, id],
    }
}

/// The message that `buf` begins with, if it begins with one.
pub open spec fn spec_unmarshall(buf: Seq<u8>) -> Option<Message> {
    if buf.len() < 2 {
        None
    } else if buf[0] == 0 {
        if buf.len() < 3 {
            None
        } else {
            Some(Message::Data { id: buf[1], data: buf[2] })
        }
    } else if buf[0] == 1 {
        Some(Message::Ack { id: buf[1] })
    } else {
        None
    }
}

impl Message {
    /// The id that the message carries.
    pub open spec fn spec_id(self) -> u8 {
        match self {
            Message::Data { id, .. } => id,
            Message::Ack { id } => id,
        }
    }

    pub fn marshall(self) -> (buf: Vec<u8>)
        ensures
            buf@ == spec_marshall(self),
    {
        match self {
            Message::Data { id, data } => {
                let mut buf = Vec::new();
                buf.push(0x0);
                buf.push(id);
                buf.push(data);
                assert(buf@ =~= spec_marshall(self));
                buf
            },
            Message::Ack { id } => {
                let mut buf: Vec<u8> = Vec::new();
                buf.push(0x1);
                buf.push(id);
                assert(buf@ =~= spec_marshall(self));
                buf
            },
        }
    }

    /// Decodes the message at the start of `buf`. Bytes after it are
    /// ignored; a buffer too short for its tag, or with an unknown tag,
    /// decodes to nothing.
    pub fn unmarshall(buf: &[u8]) -> (message: Option<Message>)
        ensures
            message == spec_unmarshall(buf@),
    {
        if buf.len() < 2 {
            return None;
        }
        let id = buf[1];
        let code = buf[0];
        match code {
            0x0 => {
                if buf.len() < 3 {
                    return None;
                }
                Some(Message::Data { id, data: buf[2] })
            },
            0x1 => Some(Message::Ack { id }),
            _ => None,
        }
    }

    pub fn id(&self) -> (id: u8)
        ensures
            id == self.spec_id(),
    {
        match self {
            Message::Data { id, .. } => *id,
            Message::Ack { id } => *id,
        }
    }
}

/// Decoding what was encoded gives the message back, whatever follows it in
/// the buffer.
pub proof fn lemma_message_round_trip(m: Message, rest: Seq<u8>)
    ensures
        spec_unmarshall(spec_marshall(m).add(rest)) == Some(m),
        spec_unmarshall(spec_marshall(m)) == Some(m),
{
}

} // verus!
