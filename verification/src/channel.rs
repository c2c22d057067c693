//! The data channel manager and the session state it lives in: the passive
//! data channel walks `Closed -> Listening -> Transferring -> Closed`, at most
//! one channel exists per session, and closing is unconditional and
//! idempotent. Binding and accepting sockets is the surrounding program's
//! work; it reports the outcomes, and the state here decides and records.
use vstd::prelude::*;

use crate::replies::{IpOctets, TransferType};

verus! {

/// The life-cycle state of the passive data channel. A listening or
/// transferring channel carries the address and port it is bound to.
#[derive(Clone, Copy, Debug, PartialEq, Eq, Structural)]
pub enum Channel {
    /// No data channel exists.
    Closed,
    /// A listener is bound and waits for the one peer it will accept.
    Listening { ip: IpOctets, port: u16 },
    /// The one peer is accepted and bytes are moving.
    Transferring { ip: IpOctets, port: u16 },
}

/// What a request to open the data port decides.
#[derive(Clone, Copy, Debug, PartialEq, Eq, Structural)]
pub enum OpenOutcome {
    /// No channel existed: a new listener must be bound.
    Bind,
    /// A channel already existed: nothing is opened, and the reply that a
    /// transfer is already starting goes out instead.
    AlreadyStarting,
}

/// The error of driving the data channel out of turn: accepting a peer
/// demands a listening channel.
#[derive(Clone, Copy, Debug, PartialEq, Eq, Structural)]
pub enum DataChannelError {
    /// The channel was not listening when a peer was to be accepted.
    NotListening,
}

/// The state a session owns besides its control stream: the transfer-type
/// flag and the one optional data channel.
#[derive(Clone, Copy, Debug, PartialEq, Eq, Structural)]
pub struct State {
    /// The transfer-type flag; binary until a type-setting command changes
    /// it.
    pub ttype: TransferType,
    /// The one data channel of the session.
    pub channel: Channel,
}

/// A state with the data channel closed and everything else kept.
pub open spec fn spec_close(s: State) -> State {
    State { channel: Channel::Closed, ..s }
}

impl State {
    /// A fresh session state: binary transfer type, no data channel.
    pub fn new() -> (s: State)
        ensures
            s.ttype == TransferType::Binary,
            s.channel == Channel::Closed,
    {
        State { ttype: TransferType::Binary, channel: Channel::Closed }
    }

    /// Decides what a request to open the data port does: bind a new
    /// listener when none exists, otherwise leave the existing channel
    /// untouched and announce that the transfer is already starting. The
    /// state itself does not change; a successful bind is recorded by
    /// [`State::data_port_bound`].
    pub fn open_data_port(&mut self) -> (r: OpenOutcome)
        ensures
            *final(self) == *old(self),
            r == if old(self).channel is Closed {
                OpenOutcome::Bind
            } else {
                OpenOutcome::AlreadyStarting
            },
    {
        match self.channel {
            Channel::Closed => OpenOutcome::Bind,
            _ => OpenOutcome::AlreadyStarting,
        }
    }

    /// Records the listener the surrounding program bound: the channel is
    /// now listening at the given address.
    pub fn data_port_bound(&mut self, ip: IpOctets, port: u16)
        ensures
            final(self).channel == (Channel::Listening { ip, port }),
            final(self).ttype == old(self).ttype,
    {
        self.channel = Channel::Listening { ip, port };
    }

    /// Moves the channel from listening to transferring when the one peer is
    /// accepted; any other state is rejected and left unchanged.
    pub fn accept_data(&mut self) -> (r: Result<(), DataChannelError>)
        ensures
            old(self).channel matches Channel::Listening { ip, port } ==> r is Ok
                && final(self).channel == (Channel::Transferring { ip, port }),
            !(old(self).channel is Listening) ==> r == Err::<(), _>(
                DataChannelError::NotListening,
            ) && *final(self) == *old(self),
            final(self).ttype == old(self).ttype,
    {
        match self.channel {
            Channel::Listening { ip, port } => {
                self.channel = Channel::Transferring { ip, port };
                Ok(())
            },
            _ => Err(DataChannelError::NotListening),
        }
    }

    /// Closes the data channel unconditionally: the listener and any
    /// accepted connection are released, whatever state they were in.
    pub fn close_data_port(&mut self)
        ensures
            *final(self) == spec_close(*old(self)),
    {
        self.channel = Channel::Closed;
    }

    /// The address the channel is bound to; none while it is closed.
    pub fn local_address(&self) -> (r: Option<(IpOctets, u16)>)
        ensures
            r == match self.channel {
                Channel::Closed => None::<(IpOctets, u16)>,
                Channel::Listening { ip, port } => Some((ip, port)),
                Channel::Transferring { ip, port } => Some((ip, port)),
            },
    {
        match self.channel {
            Channel::Closed => None,
            Channel::Listening { ip, port } => Some((ip, port)),
            Channel::Transferring { ip, port } => Some((ip, port)),
        }
    }
}

/// Law: closing the data channel is idempotent. Closing twice leaves exactly
/// the state that closing once leaves.
pub proof fn lemma_close_idempotent(s: State)
    ensures
        spec_close(spec_close(s)) == spec_close(s),
{
}

} // verus!
