//! The framed channel: turn-taking, typed send and receive over a queue of
//! messages.  The process boundary fills the inbox and drains the outbox; the
//! session logic only ever takes the next inbound message of the expected type
//! and appends replies.  A message of the wrong type is a fatal protocol
//! error, never retried.

use vstd::prelude::*;
use crate::user::{InfoRec, UserInfo, UserRole};

verus! {

/// Why a session ends: the client asked to, the client broke the protocol, or
/// the credential primitive failed inside the service.
#[derive(Clone, Copy, PartialEq, Eq, Structural, Debug)]
pub enum Termination {
    /// The client requested the end of the session; not an error.
    ClientExit,
    /// A malformed or unexpected message: the connection is torn down.
    Protocol,
    /// An internal failure of a primitive; nothing is reported to the client.
    Internal,
}

/// The gated actions' failure replies.  Each carries a short fixed text and
/// never an internal error chain.
#[derive(Clone, Copy, PartialEq, Eq, Structural, Debug)]
pub enum DomainError {
    Unauthenticated,
    Forbidden,
    TargetNotFound,
    UserExists,
    InvalidUsername,
    InvalidPassword,
    InvalidPhone,
    AlreadyLoggedIn,
    AuthenticationFailed,
    NotLoggedIn,
}

/// The fixed client-facing text of each failure reply.
pub open spec fn message_of(e: DomainError) -> Seq<char> {
    match e {
        DomainError::Unauthenticated => "unauthenticated"@,
        DomainError::Forbidden => "forbidden"@,
        DomainError::TargetNotFound => "Target user not found"@,
        DomainError::UserExists => "User already exists"@,
        DomainError::InvalidUsername => "Invalid username"@,
        DomainError::InvalidPassword => "Invalid password"@,
        DomainError::InvalidPhone => "Invalid phone number"@,
        DomainError::AlreadyLoggedIn => "You are already logged in"@,
        DomainError::AuthenticationFailed => "Authentication failed"@,
        DomainError::NotLoggedIn => "You are not logged in"@,
    }
}

impl DomainError {
    /// The short fixed text sent to the client for this failure.
    pub fn message(&self) -> (r: &'static str)
        ensures
            r@ == message_of(*self),
    {
        match self {
            DomainError::Unauthenticated => "unauthenticated",
            DomainError::Forbidden => "forbidden",
            DomainError::TargetNotFound => "Target user not found",
            DomainError::UserExists => "User already exists",
            DomainError::InvalidUsername => "Invalid username",
            DomainError::InvalidPassword => "Invalid password",
            DomainError::InvalidPhone => "Invalid phone number",
            DomainError::AlreadyLoggedIn => "You are already logged in",
            DomainError::AuthenticationFailed => "Authentication failed",
            DomainError::NotLoggedIn => "You are not logged in",
        }
    }
}

/// The payload of a successful reply.
pub enum ReplyBody {
    /// The action took effect; there is nothing further to report.
    Done,
    /// The directory listing: redacted projections only.
    Users(Vec<UserInfo>),
}

/// Mathematical image of a reply payload.
pub ghost enum BodyV {
    Done,
    Users(Seq<InfoRec>),
}

impl View for ReplyBody {
    type V = BodyV;

    closed spec fn view(&self) -> BodyV {
        match self {
            ReplyBody::Done => BodyV::Done,
            ReplyBody::Users(v) => BodyV::Users(v@.map_values(|u: UserInfo| u@)),
        }
    }
}

/// One framed message, in either direction.
pub enum Message {
    /// Client to server: a selector or a textual parameter.
    Text(String),
    /// Client to server: the role parameter of an account creation.
    Role(UserRole),
    /// Server to client: the banner that opens a turn.
    Banner(String),
    /// Server to client: the single reply of an action.
    Reply(Result<ReplyBody, DomainError>),
}

/// Mathematical image of a message.
pub ghost enum MsgV {
    Text(Seq<char>),
    Role(UserRole),
    Banner(Seq<char>),
    Reply(Result<BodyV, DomainError>),
}

impl View for Message {
    type V = MsgV;

    closed spec fn view(&self) -> MsgV {
        match self {
            Message::Text(s) => MsgV::Text(s@),
            Message::Role(r) => MsgV::Role(*r),
            Message::Banner(s) => MsgV::Banner(s@),
            Message::Reply(r) => MsgV::Reply(
                match r {
                    Ok(b) => Ok(b@),
                    Err(e) => Err(*e),
                },
            ),
        }
    }
}

/// Mathematical image of a channel: what has arrived and not yet been read,
/// and what has been sent.
pub ghost struct ConnV {
    pub inbox: Seq<MsgV>,
    pub outbox: Seq<MsgV>,
}

/// The text at the head of the inbox, if the next message is text.
pub open spec fn front_text(c: ConnV) -> Option<Seq<char>> {
    if c.inbox.len() > 0 && c.inbox[0] is Text {
        Some(c.inbox[0]->Text_0)
    } else {
        None
    }
}

/// The role at the head of the inbox, if the next message is a role.
pub open spec fn front_role(c: ConnV) -> Option<UserRole> {
    if c.inbox.len() > 0 && c.inbox[0] is Role {
        Some(c.inbox[0]->Role_0)
    } else {
        None
    }
}

/// A turn-taking typed channel.
pub struct Connection {
    inbox: Vec<Message>,
    outbox: Vec<Message>,
}

impl View for Connection {
    type V = ConnV;

    closed spec fn view(&self) -> ConnV {
        ConnV {
            inbox: self.inbox@.map_values(|m: Message| m@),
            outbox: self.outbox@.map_values(|m: Message| m@),
        }
    }
}

impl Connection {
    /// A channel with nothing received and nothing sent.
    pub fn new() -> (c: Self)
        ensures
            c@.inbox == Seq::<MsgV>::empty(),
            c@.outbox == Seq::<MsgV>::empty(),
    {
        let c = Connection { inbox: Vec::new(), outbox: Vec::new() };
        proof {
            assert(c@.inbox =~= Seq::<MsgV>::empty());
            assert(c@.outbox =~= Seq::<MsgV>::empty());
        }
        c
    }

    /// The process boundary queues one inbound message.
    pub fn push_incoming(&mut self, m: Message)
        ensures
            final (self)@.inbox == old(self)@.inbox.push(m@),
            final (self)@.outbox == old(self)@.outbox,
    {
        let ghost pre = self@.inbox;
        self.inbox.push(m);
        proof {
            assert(self@.inbox =~= pre.push(m@));
        }
    }

    /// The process boundary takes the next outbound message, in send order.
    pub fn next_outgoing(&mut self) -> (r: Option<Message>)
        ensures
            final (self)@.inbox == old(self)@.inbox,
            old(self)@.outbox.len() == 0 ==> r is None && final (self)@.outbox == old(
                self,
            )@.outbox,
            old(self)@.outbox.len() > 0 ==> (r matches Some(m) && m@ == old(self)@.outbox[0]
                && final (self)@.outbox == old(self)@.outbox.drop_first()),
    {
        if self.outbox.len() == 0 {
            return None;
        }
        let ghost pre = self@.outbox;
        let m = self.outbox.remove(0);
        proof {
            assert(self@.outbox =~= pre.drop_first());
        }
        Some(m)
    }

    /// The messages sent so far, oldest first.
    pub fn outgoing(&self) -> (r: &Vec<Message>)
        ensures
            r@.map_values(|m: Message| m@) == self@.outbox,
    {
        &self.outbox
    }

    /// Receives the next message, which must be text; anything else is a
    /// fatal protocol error and consumes nothing.
    pub fn receive_text(&mut self) -> (r: Result<String, Termination>)
        ensures
            final (self)@.outbox == old(self)@.outbox,
            match front_text(old(self)@) {
                Some(t) => r matches Ok(s) && s@ == t && final (self)@.inbox == old(
                    self,
                )@.inbox.drop_first(),
                None => r == Err::<String, Termination>(Termination::Protocol) && final (self)@
                    == old(self)@,
            },
    {
        if self.inbox.len() == 0 {
            return Err(Termination::Protocol);
        }
        let ok = matches!(&self.inbox[0], Message::Text(_));
        if !ok {
            return Err(Termination::Protocol);
        }
        let ghost pre = self@.inbox;
        let m = self.inbox.remove(0);
        proof {
            assert(self@.inbox =~= pre.drop_first());
        }
        match m {
            Message::Text(s) => Ok(s),
            _ => {
                proof {
                    assert(false);
                }
                Err(Termination::Protocol)
            },
        }
    }

    /// Receives the next message, which must be a role; anything else is a
    /// fatal protocol error and consumes nothing.
    pub fn receive_role(&mut self) -> (r: Result<UserRole, Termination>)
        ensures
            final (self)@.outbox == old(self)@.outbox,
            match front_role(old(self)@) {
                Some(t) => r == Ok::<UserRole, Termination>(t) && final (self)@.inbox == old(
                    self,
                )@.inbox.drop_first(),
                None => r == Err::<UserRole, Termination>(Termination::Protocol) && final (self)@
                    == old(self)@,
            },
    {
        if self.inbox.len() == 0 {
            return Err(Termination::Protocol);
        }
        let ok = matches!(&self.inbox[0], Message::Role(_));
        if !ok {
            return Err(Termination::Protocol);
        }
        let ghost pre = self@.inbox;
        let m = self.inbox.remove(0);
        proof {
            assert(self@.inbox =~= pre.drop_first());
        }
        match m {
            Message::Role(role) => Ok(role),
            _ => {
                proof {
                    assert(false);
                }
                Err(Termination::Protocol)
            },
        }
    }

    /// Sends the banner that opens a turn.
    pub fn send_banner(&mut self, text: String)
        ensures
            final (self)@.inbox == old(self)@.inbox,
            final (self)@.outbox == old(self)@.outbox.push(MsgV::Banner(text@)),
    {
        let ghost pre = self@.outbox;
        self.outbox.push(Message::Banner(text));
        proof {
            assert(self@.outbox =~= pre.push(MsgV::Banner(text@)));
        }
    }

    /// Sends the single reply of an action that carries no data on success.
    pub fn send_done_reply(&mut self, decision: Result<(), DomainError>)
        ensures
            final (self)@.inbox == old(self)@.inbox,
            final (self)@.outbox == old(self)@.outbox.push(done_reply(decision)),
    {
        let ghost pre = self@.outbox;
        let reply: Result<ReplyBody, DomainError> = match decision {
            Ok(_) => Ok(ReplyBody::Done),
            Err(e) => Err(e),
        };
        self.outbox.push(Message::Reply(reply));
        proof {
            assert(self@.outbox =~= pre.push(done_reply(decision)));
        }
    }

    /// Sends the one successful listing reply: the projections, nothing else.
    pub fn send_users_reply(&mut self, infos: Vec<UserInfo>)
        ensures
            final (self)@.inbox == old(self)@.inbox,
            final (self)@.outbox == old(self)@.outbox.push(
                MsgV::Reply(Ok(BodyV::Users(infos@.map_values(|u: UserInfo| u@)))),
            ),
    {
        let ghost pre = self@.outbox;
        let ghost img = MsgV::Reply(Ok(BodyV::Users(infos@.map_values(|u: UserInfo| u@))));
        self.outbox.push(Message::Reply(Ok(ReplyBody::Users(infos))));
        proof {
            assert(self@.outbox =~= pre.push(img));
        }
    }
}

/// The reply image of a gate decision that carries no data on success.
pub open spec fn done_reply(d: Result<(), DomainError>) -> MsgV {
    MsgV::Reply(
        match d {
            Ok(_) => Ok(BodyV::Done),
            Err(e) => Err(e),
        },
    )
}

} // verus!
