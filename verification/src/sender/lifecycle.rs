//! The sender as one sum of stages, from the link's description to the
//! delivered payload. A step taken in a stage that does not allow it gives
//! `IllegalState`, and nothing else.

use crate::types::socket::Transfer;
use crate::{Link, DATA_SIZE};
use vstd::prelude::*;

verus! {

/// The stage of a sender.
pub enum SenderState {
    Init { link: Link },
    Connect { link: Link, remote_addr: String },
    Ready { link: Link },
    Sending { link: Link, data: u8 },
    Pending { link: Link, data: u8 },
    Delivered { link: Link, data: u8 },
    /// The connection could not be established.
    Error,
    /// A step was taken in a stage that does not allow it.
    IllegalState,
    /// The payload did not go out.
    SendError,
}

/// The number of bytes of an acknowledgement.
pub const ACK_SIZE: usize = 2;

impl SenderState {
    /// Whether a ready sender's link can carry `data_size` bytes.
    pub open spec fn has_capacity(&self, data_size: usize) -> bool {
        match self {
            SenderState::Ready { link } => link.capacity >= data_size,
            _ => false,
        }
    }

    /// The stage after `init`.
    pub open spec fn spec_init(self) -> SenderState {
        match self {
            SenderState::Init { link } => SenderState::Connect { link, remote_addr: link.dst },
            _ => SenderState::IllegalState,
        }
    }

    /// The stage after an attempt to connect.
    pub open spec fn spec_connect(self, established: bool) -> SenderState {
        match self {
            SenderState::Connect { link, remote_addr } => if established {
                SenderState::Ready { link }
            } else {
                SenderState::Error
            },
            _ => SenderState::IllegalState,
        }
    }

    /// The stage after a payload was taken on.
    pub open spec fn spec_register_job(self, data: u8) -> SenderState {
        match self {
            SenderState::Ready { link } => SenderState::Sending { link, data },
            _ => SenderState::IllegalState,
        }
    }

    /// The stage after the write of the payload.
    pub open spec fn spec_send(self, written: Transfer) -> SenderState {
        match self {
            SenderState::Sending { link, data } => if written == Transfer::Moved(DATA_SIZE) {
                SenderState::Pending { link, data }
            } else {
                SenderState::SendError
            },
            _ => SenderState::IllegalState,
        }
    }

    /// The stage after a read for the acknowledgement.
    pub open spec fn spec_wait_deliver(self, read: Transfer) -> SenderState {
        match self {
            SenderState::Pending { link, data } => if read == Transfer::Moved(ACK_SIZE) {
                SenderState::Delivered { link, data }
            } else {
                SenderState::Pending { link, data }
            },
            _ => SenderState::IllegalState,
        }
    }

    /// The stage after the delivery was taken note of.
    pub open spec fn spec_delivered(self) -> SenderState {
        match self {
            SenderState::Delivered { link, .. } => SenderState::Ready { link },
            _ => SenderState::IllegalState,
        }
    }

    /// A sender for `link`, at its first stage.
    pub fn new(link: Link) -> (state: Self)
        ensures
            state == (SenderState::Init { link }),
    {
        SenderState::Init { link }
    }

    /// Whether a ready sender's link can carry `data_size` bytes.
    pub fn can_carry(&self, data_size: usize) -> (can: bool)
        ensures
            can == self.has_capacity(data_size),
    {
        match self {
            SenderState::Ready { link } => link.capacity >= data_size,
            _ => false,
        }
    }

    /// From the link's description to the address to connect to: the link's
    /// destination.
    pub fn init(self) -> (state: SenderState)
        ensures
            state == self.spec_init(),
    {
        match self {
            SenderState::Init { link } => {
                let remote_addr = link.dst.clone();
                SenderState::Connect { link, remote_addr }
            },
            _ => SenderState::IllegalState,
        }
    }

    /// Takes what the attempt to connect came to.
    pub fn connect(self, established: bool) -> (state: SenderState)
        ensures
            state == self.spec_connect(established),
    {
        match self {
            SenderState::Connect { link, remote_addr } => {
                if established {
                    SenderState::Ready { link }
                } else {
                    SenderState::Error
                }
            },
            _ => SenderState::IllegalState,
        }
    }

    /// Takes a payload on.
    pub fn register_job(self, data: u8) -> (state: SenderState)
        ensures
            state == self.spec_register_job(data),
    {
        match self {
            SenderState::Ready { link } => SenderState::Sending { link, data },
            _ => SenderState::IllegalState,
        }
    }

    /// Takes what the write of the payload came to: it went out if and only
    /// if the write moved all of it.
    pub fn send(self, written: Transfer) -> (state: SenderState)
        ensures
            state == self.spec_send(written),
    {
        match self {
            SenderState::Sending { link, data } => {
                match written {
                    Transfer::Moved(bs) => {
                        if bs == DATA_SIZE {
                            SenderState::Pending { link, data }
                        } else {
                            SenderState::SendError
                        }
                    },
                    _ => SenderState::SendError,
                }
            },
            _ => SenderState::IllegalState,
        }
    }

    /// Takes what a read for the acknowledgement came to: the payload counts
    /// as delivered once a read has filled an acknowledgement's two bytes;
    /// until then the sender stays pending.
    #[allow(non_snake_case)]
    pub fn waitDeliver(self, read: Transfer) -> (state: SenderState)
        ensures
            state == self.spec_wait_deliver(read),
    {
        match self {
            SenderState::Pending { link, data } => {
                match read {
                    Transfer::Moved(n) => {
                        if n == ACK_SIZE {
                            SenderState::Delivered { link, data }
                        } else {
                            SenderState::Pending { link, data }
                        }
                    },
                    _ => SenderState::Pending { link, data },
                }
            },
            _ => SenderState::IllegalState,
        }
    }

    /// Takes note of the delivery: the sender is ready for the next payload.
    pub fn delivered(self) -> (state: SenderState)
        ensures
            state == self.spec_delivered(),
    {
        match self {
            SenderState::Delivered { link, .. } => SenderState::Ready { link },
            _ => SenderState::IllegalState,
        }
    }
}

} // verus!
