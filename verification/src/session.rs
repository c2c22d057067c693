//! The session engine: the login handshake, the command loop, and the
//! dispatch of every supported verb, as one total state machine. Each call of
//! [`Session::step`] takes one event the surrounding program observed and
//! decides the next state together with the exact actions to perform. The
//! surrounding program performs the actions in order — writing replies,
//! binding and accepting the data channel, moving file bytes — and feeds the
//! outcome back as the next event.
use vstd::prelude::*;

use crate::channel::{Channel, State};
use crate::parse::{parse_command, spec_arg, spec_verb};
use crate::replies::{IpOctets, Reply, TransferType};
use crate::text::str_eq;

verus! {

/// Where the session stands between two events.
#[derive(Clone, Copy, Debug, PartialEq, Eq, Structural)]
pub enum Phase {
    /// The connection is accepted; the greeting has not gone out yet.
    Greet,
    /// The greeting went out; the user-name command is expected.
    AwaitUser,
    /// The user name was taken; the password command is expected.
    AwaitPass,
    /// The handshake is done; the next command line is expected.
    Idle,
    /// A passive-mode command asked for a listener; its bound address is
    /// expected.
    PasvBinding,
    /// A listing command asked for a listener; its bound address is expected.
    ListBinding,
    /// An upload is running on the data channel; its end is expected.
    Storing,
    /// A listing is running on the data channel; its end is expected.
    Listing,
    /// The session is over; no event does anything any more.
    Done,
}

/// One observation the surrounding program hands the engine.
#[derive(Debug, PartialEq, Eq)]
pub enum Event {
    /// The connection was accepted; the session begins.
    Start,
    /// A complete command line arrived on the control connection.
    Line(String),
    /// The requested data-channel listener is bound at this address.
    Bound { ip: IpOctets, port: u16 },
    /// The upload finished: the peer's bytes are in the file and the peer
    /// closed the data connection.
    TransferDone,
    /// The listing was written and the data connection dropped.
    ListingDone,
    /// Reading, writing, binding, accepting or file work failed.
    IoFailure,
}

/// What [`Event`] says, with the line as its character sequence.
pub enum SpecEvent {
    Start,
    Line(Seq<char>),
    Bound { ip: IpOctets, port: u16 },
    TransferDone,
    ListingDone,
    IoFailure,
}

impl View for Event {
    type V = SpecEvent;

    open spec fn view(&self) -> SpecEvent {
        match self {
            Event::Start => SpecEvent::Start,
            Event::Line(l) => SpecEvent::Line(l@),
            Event::Bound { ip, port } => SpecEvent::Bound { ip: *ip, port: *port },
            Event::TransferDone => SpecEvent::TransferDone,
            Event::ListingDone => SpecEvent::ListingDone,
            Event::IoFailure => SpecEvent::IoFailure,
        }
    }
}

/// One instruction the engine hands back, to be performed in order.
#[derive(Debug, PartialEq, Eq)]
pub enum Action {
    /// Write this reply on the control connection.
    Send(Reply),
    /// Read the next line from the control connection and hand it back as
    /// [`Event::Line`].
    ReadLine,
    /// Bind a data-channel listener on the control connection's address at
    /// an ephemeral port, and hand the address back as [`Event::Bound`].
    BindData,
    /// Create or truncate the file at this path for the coming upload.
    OpenFile(String),
    /// Accept the one peer on the data channel and copy its bytes into the
    /// opened file until the peer closes; hand back
    /// [`Event::TransferDone`].
    ReceiveIntoFile,
    /// Accept the one peer on the data channel, write the listing payload to
    /// it and drop it; hand back [`Event::ListingDone`].
    SendListing,
    /// Close the control connection and any data channel; the session is
    /// over.
    CloseSession,
}

/// What [`Action`] says, with the file path as its character sequence.
pub enum SpecAction {
    Send(Reply),
    ReadLine,
    BindData,
    OpenFile(Seq<char>),
    ReceiveIntoFile,
    SendListing,
    CloseSession,
}

impl View for Action {
    type V = SpecAction;

    open spec fn view(&self) -> SpecAction {
        match self {
            Action::Send(r) => SpecAction::Send(*r),
            Action::ReadLine => SpecAction::ReadLine,
            Action::BindData => SpecAction::BindData,
            Action::OpenFile(p) => SpecAction::OpenFile(p@),
            Action::ReceiveIntoFile => SpecAction::ReceiveIntoFile,
            Action::SendListing => SpecAction::SendListing,
            Action::CloseSession => SpecAction::CloseSession,
        }
    }
}

/// The actions of a returned vector, each by what it says.
pub open spec fn actions_view(s: Seq<Action>) -> Seq<SpecAction> {
    s.map_values(|a: Action| a@)
}

/// A whole session: its phase and the state it owns.
#[derive(Clone, Copy, Debug, PartialEq, Eq, Structural)]
pub struct Session {
    /// Where the session stands.
    pub phase: Phase,
    /// The transfer-type flag and the data channel.
    pub st: State,
}

/// A hard close: whatever went wrong, the session ends with no further reply.
pub open spec fn spec_abort(s: Session) -> (Session, Seq<SpecAction>) {
    (Session { phase: Phase::Done, ..s }, seq![SpecAction::CloseSession])
}

/// What one command does once the session is idle: the dispatch table.
///
/// - An unrecognized verb gets no reply and the session goes on.
/// - The quit verb ends the session with the parting reply.
/// - The system-type and type-setting verbs reply at once.
/// - The passive verb closes any existing data channel and asks for a fresh
///   listener.
/// - The upload verb demands a listening channel and starts receiving into
///   the named file; without a listening channel the session is torn down.
/// - The listing verb uses the existing channel, announcing that the
///   transfer is already starting, or asks for a listener first.
pub open spec fn spec_dispatch(s: Session, v: Seq<char>, a: Seq<char>) -> (
    Session,
    Seq<SpecAction>,
) {
    if v == "QUIT"@ {
        (
            Session { phase: Phase::Done, ..s },
            seq![SpecAction::Send(Reply::Bye), SpecAction::CloseSession],
        )
    } else if v == "SYST"@ {
        (s, seq![SpecAction::Send(Reply::SystemType), SpecAction::ReadLine])
    } else if v == "TYPE"@ {
        if a == "A"@ {
            (
                Session { st: State { ttype: TransferType::Ascii, ..s.st }, ..s },
                seq![SpecAction::Send(Reply::TypeAscii), SpecAction::ReadLine],
            )
        } else if a == "I"@ {
            (
                Session { st: State { ttype: TransferType::Binary, ..s.st }, ..s },
                seq![SpecAction::Send(Reply::TypeBinary), SpecAction::ReadLine],
            )
        } else {
            (s, seq![SpecAction::Send(Reply::TypeBad), SpecAction::ReadLine])
        }
    } else if v == "PASV"@ {
        (
            Session { phase: Phase::PasvBinding, st: State { channel: Channel::Closed, ..s.st } },
            seq![SpecAction::BindData],
        )
    } else if v == "STOR"@ {
        match s.st.channel {
            Channel::Listening { ip, port } => (
                Session {
                    phase: Phase::Storing,
                    st: State { channel: Channel::Transferring { ip, port }, ..s.st },
                },
                seq![
                    SpecAction::OpenFile(a),
                    SpecAction::Send(Reply::Opening),
                    SpecAction::ReceiveIntoFile,
                ],
            ),
            _ => spec_abort(s),
        }
    } else if v == "LIST"@ {
        match s.st.channel {
            Channel::Closed => (Session { phase: Phase::ListBinding, ..s }, seq![SpecAction::BindData]),
            Channel::Listening { ip, port } => (
                Session {
                    phase: Phase::Listing,
                    st: State { channel: Channel::Transferring { ip, port }, ..s.st },
                },
                seq![SpecAction::Send(Reply::AlreadyOpen), SpecAction::SendListing],
            ),
            Channel::Transferring { .. } => spec_abort(s),
        }
    } else {
        (s, seq![SpecAction::ReadLine])
    }
}

/// The whole engine, one event at a time. Total: every state and every event
/// have a defined successor. A finished session absorbs every event; an
/// event out of turn, a failed handshake or any reported failure tears the
/// session down.
pub open spec fn spec_step(s: Session, e: SpecEvent) -> (Session, Seq<SpecAction>) {
    if s.phase is Done {
        (s, Seq::empty())
    } else {
        match e {
            SpecEvent::Start => if s.phase is Greet {
                (
                    Session { phase: Phase::AwaitUser, ..s },
                    seq![SpecAction::Send(Reply::Hello), SpecAction::ReadLine],
                )
            } else {
                spec_abort(s)
            },
            SpecEvent::Line(l) => match s.phase {
                Phase::AwaitUser => if spec_verb(l) == "USER"@ {
                    (
                        Session { phase: Phase::AwaitPass, ..s },
                        seq![SpecAction::Send(Reply::UserOk), SpecAction::ReadLine],
                    )
                } else {
                    spec_abort(s)
                },
                Phase::AwaitPass => if spec_verb(l) == "PASS"@ {
                    (
                        Session { phase: Phase::Idle, ..s },
                        seq![SpecAction::Send(Reply::PassOk), SpecAction::ReadLine],
                    )
                } else {
                    spec_abort(s)
                },
                Phase::Idle => spec_dispatch(s, spec_verb(l), spec_arg(l)),
                _ => spec_abort(s),
            },
            SpecEvent::Bound { ip, port } => match s.phase {
                Phase::PasvBinding => (
                    Session {
                        phase: Phase::Idle,
                        st: State { channel: Channel::Listening { ip, port }, ..s.st },
                    },
                    seq![
                        SpecAction::Send(Reply::Passive { ip, port }),
                        SpecAction::ReadLine,
                    ],
                ),
                Phase::ListBinding => (
                    Session {
                        phase: Phase::Listing,
                        st: State { channel: Channel::Transferring { ip, port }, ..s.st },
                    },
                    seq![SpecAction::SendListing],
                ),
                _ => spec_abort(s),
            },
            SpecEvent::TransferDone => if s.phase is Storing {
                (
                    Session {
                        phase: Phase::Idle,
                        st: State { channel: Channel::Closed, ..s.st },
                    },
                    seq![SpecAction::Send(Reply::Closing), SpecAction::ReadLine],
                )
            } else {
                spec_abort(s)
            },
            SpecEvent::ListingDone => if s.phase is Listing {
                (
                    Session {
                        phase: Phase::Idle,
                        st: State { channel: Channel::Closed, ..s.st },
                    },
                    seq![SpecAction::Send(Reply::Closing), SpecAction::ReadLine],
                )
            } else {
                spec_abort(s)
            },
            SpecEvent::IoFailure => spec_abort(s),
        }
    }
}

/// Between events, a data transfer is in flight only while the engine is
/// storing or listing — or after the session was torn down mid-transfer.
pub open spec fn session_inv(s: Session) -> bool {
    s.st.channel is Transferring ==> (s.phase is Storing || s.phase is Listing || s.phase
        is Done)
}

/// Law: a fresh session satisfies the transfer invariant, and every step
/// preserves it; in particular the engine never stands idle with a transfer
/// in flight.
pub proof fn lemma_step_preserves_session_inv(s: Session, e: SpecEvent)
    requires
        session_inv(s),
    ensures
        session_inv(spec_step(s, e).0),
{
}

impl Session {
    /// A fresh session on a just-accepted connection: the greeting is still
    /// owed, the transfer type is binary, no data channel exists.
    pub fn new() -> (s: Session)
        ensures
            s.phase == Phase::Greet,
            s.st.ttype == TransferType::Binary,
            s.st.channel == Channel::Closed,
    {
        Session { phase: Phase::Greet, st: State::new() }
    }

    fn abort(&mut self) -> (r: Vec<Action>)
        ensures
            *final(self) == spec_abort(*old(self)).0,
            actions_view(r@) =~= spec_abort(*old(self)).1,
    {
        self.phase = Phase::Done;
        let r: Vec<Action> = vec![Action::CloseSession];
        proof {
            assert(actions_view(r@) =~= seq![SpecAction::CloseSession]);
        }
        r
    }

    fn dispatch(&mut self, verb: String, arg: String) -> (r: Vec<Action>)
        ensures
            *final(self) == spec_dispatch(*old(self), verb@, arg@).0,
            actions_view(r@) =~= spec_dispatch(*old(self), verb@, arg@).1,
    {
        if str_eq(verb.as_str(), "QUIT") {
            self.phase = Phase::Done;
            let r: Vec<Action> = vec![Action::Send(Reply::Bye), Action::CloseSession];
            proof {
                assert(actions_view(r@) =~= spec_dispatch(*old(self), verb@, arg@).1);
            }
            r
        } else if str_eq(verb.as_str(), "SYST") {
            let r: Vec<Action> = vec![Action::Send(Reply::SystemType), Action::ReadLine];
            proof {
                assert(actions_view(r@) =~= spec_dispatch(*old(self), verb@, arg@).1);
            }
            r
        } else if str_eq(verb.as_str(), "TYPE") {
            let reply = if str_eq(arg.as_str(), "A") {
                self.st.ttype = TransferType::Ascii;
                Reply::TypeAscii
            } else if str_eq(arg.as_str(), "I") {
                self.st.ttype = TransferType::Binary;
                Reply::TypeBinary
            } else {
                Reply::TypeBad
            };
            let r: Vec<Action> = vec![Action::Send(reply), Action::ReadLine];
            proof {
                assert(actions_view(r@) =~= spec_dispatch(*old(self), verb@, arg@).1);
            }
            r
        } else if str_eq(verb.as_str(), "PASV") {
            self.st.close_data_port();
            self.phase = Phase::PasvBinding;
            let r: Vec<Action> = vec![Action::BindData];
            proof {
                assert(actions_view(r@) =~= spec_dispatch(*old(self), verb@, arg@).1);
            }
            r
        } else if str_eq(verb.as_str(), "STOR") {
            match self.st.channel {
                Channel::Listening { ip, port } => {
                    self.st.channel = Channel::Transferring { ip, port };
                    self.phase = Phase::Storing;
                    let ghost a0: Seq<char> = arg@;
                    let r: Vec<Action> = vec![
                        Action::OpenFile(arg),
                        Action::Send(Reply::Opening),
                        Action::ReceiveIntoFile,
                    ];
                    proof {
                        assert(actions_view(r@) =~= spec_dispatch(*old(self), verb@, a0).1);
                    }
                    r
                },
                _ => self.abort(),
            }
        } else if str_eq(verb.as_str(), "LIST") {
            match self.st.channel {
                Channel::Closed => {
                    self.phase = Phase::ListBinding;
                    let r: Vec<Action> = vec![Action::BindData];
                    proof {
                        assert(actions_view(r@) =~= spec_dispatch(*old(self), verb@, arg@).1);
                    }
                    r
                },
                Channel::Listening { ip, port } => {
                    self.st.channel = Channel::Transferring { ip, port };
                    self.phase = Phase::Listing;
                    let r: Vec<Action> = vec![
                        Action::Send(Reply::AlreadyOpen),
                        Action::SendListing,
                    ];
                    proof {
                        assert(actions_view(r@) =~= spec_dispatch(*old(self), verb@, arg@).1);
                    }
                    r
                },
                Channel::Transferring { .. } => self.abort(),
            }
        } else {
            let r: Vec<Action> = vec![Action::ReadLine];
            proof {
                assert(actions_view(r@) =~= spec_dispatch(*old(self), verb@, arg@).1);
            }
            r
        }
    }

    /// Takes one event and decides the next state and the actions to
    /// perform, exactly as [`spec_step`] says.
    pub fn step(&mut self, e: Event) -> (r: Vec<Action>)
        ensures
            *final(self) == spec_step(*old(self), e@).0,
            actions_view(r@) =~= spec_step(*old(self), e@).1,
    {
        match self.phase {
            Phase::Done => {
                let r: Vec<Action> = Vec::new();
                proof {
                    assert(actions_view(r@) =~= Seq::<SpecAction>::empty());
                }
                return r;
            },
            _ => {},
        }
        match e {
            Event::Start => match self.phase {
                Phase::Greet => {
                    self.phase = Phase::AwaitUser;
                    let r: Vec<Action> = vec![Action::Send(Reply::Hello), Action::ReadLine];
                    proof {
                        assert(actions_view(r@) =~= spec_step(*old(self), e@).1);
                    }
                    r
                },
                _ => self.abort(),
            },
            Event::Line(l) => {
                let (verb, arg) = match parse_command(l.as_str()) {
                    Some(p) => p,
                    None => unreached(),
                };
                match self.phase {
                    Phase::AwaitUser => {
                        if str_eq(verb.as_str(), "USER") {
                            self.phase = Phase::AwaitPass;
                            let r: Vec<Action> = vec![
                                Action::Send(Reply::UserOk),
                                Action::ReadLine,
                            ];
                            proof {
                                assert(actions_view(r@) =~= spec_step(*old(self), e@).1);
                            }
                            r
                        } else {
                            self.abort()
                        }
                    },
                    Phase::AwaitPass => {
                        if str_eq(verb.as_str(), "PASS") {
                            self.phase = Phase::Idle;
                            let r: Vec<Action> = vec![
                                Action::Send(Reply::PassOk),
                                Action::ReadLine,
                            ];
                            proof {
                                assert(actions_view(r@) =~= spec_step(*old(self), e@).1);
                            }
                            r
                        } else {
                            self.abort()
                        }
                    },
                    Phase::Idle => self.dispatch(verb, arg),
                    _ => self.abort(),
                }
            },
            Event::Bound { ip, port } => match self.phase {
                Phase::PasvBinding => {
                    self.st.data_port_bound(ip, port);
                    self.phase = Phase::Idle;
                    let r: Vec<Action> = vec![
                        Action::Send(Reply::Passive { ip, port }),
                        Action::ReadLine,
                    ];
                    proof {
                        assert(actions_view(r@) =~= spec_step(*old(self), e@).1);
                    }
                    r
                },
                Phase::ListBinding => {
                    self.st.channel = Channel::Transferring { ip, port };
                    self.phase = Phase::Listing;
                    let r: Vec<Action> = vec![Action::SendListing];
                    proof {
                        assert(actions_view(r@) =~= spec_step(*old(self), e@).1);
                    }
                    r
                },
                _ => self.abort(),
            },
            Event::TransferDone => match self.phase {
                Phase::Storing => {
                    self.st.close_data_port();
                    self.phase = Phase::Idle;
                    let r: Vec<Action> = vec![Action::Send(Reply::Closing), Action::ReadLine];
                    proof {
                        assert(actions_view(r@) =~= spec_step(*old(self), e@).1);
                    }
                    r
                },
                _ => self.abort(),
            },
            Event::ListingDone => match self.phase {
                Phase::Listing => {
                    self.st.close_data_port();
                    self.phase = Phase::Idle;
                    let r: Vec<Action> = vec![Action::Send(Reply::Closing), Action::ReadLine];
                    proof {
                        assert(actions_view(r@) =~= spec_step(*old(self), e@).1);
                    }
                    r
                },
                _ => self.abort(),
            },
            Event::IoFailure => self.abort(),
        }
    }
}

} // verus!
