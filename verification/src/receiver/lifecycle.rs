//! The receiver as one sum of stages, from the link's description to the
//! acknowledged message. A step taken in a stage that does not allow it
//! gives `IllegalState`, and nothing else.

use crate::messaging::{spec_marshall, spec_unmarshall, Message};
use crate::types::socket::Transfer;
use crate::Link;
use vstd::prelude::*;

verus! {

/// The stage of a receiver.
pub enum ReceiverState {
    Init { link: Link },
    Bind { link: Link, src_addr: String },
    Ready { link: Link },
    Listening { link: Link },
    Deliver { link: Link, msg: Message },
    /// A step was taken in a stage that does not allow it.
    IllegalState,
    /// The transport failed, or what was read is no message.
    Error,
}

/// The number of bytes that one read of the receiver asks for.
pub const FRAME_SIZE: usize = 3;

impl ReceiverState {
    /// The stage after `init`.
    pub open spec fn spec_init(self) -> ReceiverState {
        match self {
            ReceiverState::Init { link } => ReceiverState::Bind { link, src_addr: link.src },
            _ => ReceiverState::IllegalState,
        }
    }

    /// The stage after an attempt to bind.
    pub open spec fn spec_bind(self, bound: bool) -> ReceiverState {
        match self {
            ReceiverState::Bind { link, src_addr } => if bound {
                ReceiverState::Ready { link }
            } else {
                ReceiverState::Error
            },
            _ => ReceiverState::IllegalState,
        }
    }

    /// The stage after an attempt to accept a session.
    pub open spec fn spec_accept(self, accepted: bool) -> ReceiverState {
        match self {
            ReceiverState::Ready { link } => if accepted {
                ReceiverState::Listening { link }
            } else {
                ReceiverState::Error
            },
            _ => ReceiverState::IllegalState,
        }
    }

    /// The stage after the read of one frame into `buf`.
    pub open spec fn spec_listen(self, buf: Seq<u8>, read: Transfer) -> ReceiverState {
        match self {
            ReceiverState::Listening { link } => if read == Transfer::Moved(FRAME_SIZE) {
                match spec_unmarshall(buf) {
                    Some(msg) => ReceiverState::Deliver { link, msg },
                    None => ReceiverState::Error,
                }
            } else {
                ReceiverState::Error
            },
            _ => ReceiverState::IllegalState,
        }
    }

    /// The acknowledgement that a receiver at the stage `Deliver` writes:
    /// one with the id of the message it holds.
    pub open spec fn spec_ack(self) -> Option<Message> {
        match self {
            ReceiverState::Deliver { msg, .. } => Some(Message::Ack { id: msg.spec_id() }),
            _ => None,
        }
    }

    /// The stage after the write of the acknowledgement.
    pub open spec fn spec_deliver(self, written: Transfer) -> ReceiverState {
        match self {
            ReceiverState::Deliver { link, msg } => if written == Transfer::Moved(2) {
                ReceiverState::Listening { link }
            } else {
                ReceiverState::Error
            },
            _ => ReceiverState::IllegalState,
        }
    }

    /// A receiver for `link`, at its first stage.
    pub fn new(link: Link) -> (state: Self)
        ensures
            state == (ReceiverState::Init { link }),
    {
        ReceiverState::Init { link }
    }

    /// From the link's description to the address to bind: the link's
    /// source.
    pub fn init(self) -> (state: ReceiverState)
        ensures
            state == self.spec_init(),
    {
        match self {
            ReceiverState::Init { link } => {
                let src_addr = link.src.clone();
                ReceiverState::Bind { link, src_addr }
            },
            _ => ReceiverState::IllegalState,
        }
    }

    /// Takes what the attempt to bind came to.
    pub fn bind(self, bound: bool) -> (state: ReceiverState)
        ensures
            state == self.spec_bind(bound),
    {
        match self {
            ReceiverState::Bind { link, src_addr } => {
                if bound {
                    ReceiverState::Ready { link }
                } else {
                    ReceiverState::Error
                }
            },
            _ => ReceiverState::IllegalState,
        }
    }

    /// Takes what the attempt to accept a session came to.
    pub fn accept(self, accepted: bool) -> (state: ReceiverState)
        ensures
            state == self.spec_accept(accepted),
    {
        match self {
            ReceiverState::Ready { link } => {
                if accepted {
                    ReceiverState::Listening { link }
                } else {
                    ReceiverState::Error
                }
            },
            _ => ReceiverState::IllegalState,
        }
    }

    /// Takes what the read of one frame into `buf` came to: a message to
    /// acknowledge if the read filled the frame and the frame decodes, else
    /// an error.
    pub fn listen(self, buf: [u8; 3], read: Transfer) -> (state: ReceiverState)
        ensures
            state == self.spec_listen(buf@, read),
    {
        match self {
            ReceiverState::Listening { link } => {
                match read {
                    Transfer::Moved(n) => {
                        if n == FRAME_SIZE {
                            match Message::unmarshall(buf.as_slice()) {
                                Some(msg) => ReceiverState::Deliver { link, msg },
                                None => ReceiverState::Error,
                            }
                        } else {
                            ReceiverState::Error
                        }
                    },
                    _ => ReceiverState::Error,
                }
            },
            _ => ReceiverState::IllegalState,
        }
    }

    /// The bytes of the acknowledgement to write, at the stage `Deliver`.
    pub fn ack(&self) -> (bytes: Option<Vec<u8>>)
        ensures
            match self.spec_ack() {
                Some(ack) => bytes.is_some() && bytes.unwrap()@ == spec_marshall(ack),
                None => bytes.is_none(),
            },
    {
        match self {
            ReceiverState::Deliver { msg, .. } => {
                let ack = Message::Ack { id: msg.id() };
                Some(ack.marshall())
            },
            _ => None,
        }
    }

    /// Takes what the write of `self.ack()` came to: the receiver listens
    /// again if both bytes went out.
    pub fn deliver(self, written: Transfer) -> (state: ReceiverState)
        ensures
            state == self.spec_deliver(written),
    {
        match self {
            ReceiverState::Deliver { link, msg } => {
                match written {
                    Transfer::Moved(n) => {
                        if n == 2 {
                            ReceiverState::Listening { link }
                        } else {
                            ReceiverState::Error
                        }
                    },
                    _ => ReceiverState::Error,
                }
            },
            _ => ReceiverState::IllegalState,
        }
    }
}

} // verus!
