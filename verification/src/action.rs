//! The action dispatcher and the per-connection session.
//!
//! Every gated action obeys one gating order: authentication, then
//! authorization, then referential checks, then input validation, then the
//! effect.  Authorization is evaluated strictly before any lookup that could
//! reveal whether a target account exists.  Each handler reads its declared
//! parameters in a fixed order and sends exactly one reply, whichever branch
//! ran; an ill-typed parameter is a fatal protocol error.

use vstd::prelude::*;
use vstd::string::StringExecFns;
use crate::channel::{
    done_reply,
    front_text,
    BodyV,
    ConnV,
    Connection,
    DomainError,
    MsgV,
    Termination,
};
use crate::credential::{hash_password, verify_outcome, VerifyCounter};
use crate::database::{lookup, projections_of, Database};
use crate::policy::{PolicyRule, PolicyTable, Resource, Subject};
use crate::text::{seq_eq_fold, str_eq};
use crate::user::{AccountRec, UserAccount, UserRole};
use crate::validator::{
    is_valid_password,
    is_valid_phone,
    is_valid_username,
    validate_password,
    validate_phone,
    validate_username,
};

verus! {

/// The password handed to the verify primitive when the username is unknown.
pub const DUMMY_PASSWORD: &'static str = "Fail";

/// The fixed digest the verify primitive runs against when the username is
/// unknown, so a login attempt costs one verification either way.
pub const DUMMY_DIGEST: &'static str = "$argon2id$v=19$m=65536,t=3,p=4$000000000000000000000A$0000000000000000000000000000000000000000000000000000000000000000000000000000000000000A";

/// The closed set of client-selectable actions.
#[derive(Clone, Copy, PartialEq, Eq, Structural, Debug)]
pub enum Action {
    ShowUsers,
    ChangeOwnPhone,
    ChangePhone,
    AddUser,
    Login,
    Logout,
    Exit,
}

/// The selector alias table: each action is named by a fixed phrase or its
/// numeric code, matched exactly and case-sensitively.
pub open spec fn parse_selector(s: Seq<char>) -> Option<Action> {
    if s == "Show users"@ || s == "1"@ {
        Some(Action::ShowUsers)
    } else if s == "Change my phone number"@ || s == "2"@ {
        Some(Action::ChangeOwnPhone)
    } else if s == "Show someone's phone number"@ || s == "3"@ {
        Some(Action::ChangePhone)
    } else if s == "Add user"@ || s == "4"@ {
        Some(Action::AddUser)
    } else if s == "Login"@ || s == "5"@ {
        Some(Action::Login)
    } else if s == "Logout"@ || s == "6"@ {
        Some(Action::Logout)
    } else if s == "Exit"@ || s == "7"@ {
        Some(Action::Exit)
    } else {
        None
    }
}

/// A session: the optional authenticated identity and the channel state.
pub ghost struct SessionV {
    pub identity: Option<Seq<char>>,
    pub conn: ConnV,
}

/// The identity, when present, resolves to a stored account.
pub open spec fn resolves(u: SessionV, db: Seq<AccountRec>) -> bool {
    u.identity matches Some(n) ==> lookup(db, n) is Some
}

/// The policy subject a session acts as.
pub open spec fn subject_of(u: SessionV, db: Seq<AccountRec>) -> Subject {
    match u.identity {
        None => Subject::Anonymous,
        Some(n) => Subject::Known(lookup(db, n)->0.role),
    }
}

/// The first two inbox messages as text parameters, if so typed.
pub open spec fn front_texts2(c: ConnV) -> Option<(Seq<char>, Seq<char>)> {
    if c.inbox.len() >= 2 && c.inbox[0] is Text && c.inbox[1] is Text {
        Some((c.inbox[0]->Text_0, c.inbox[1]->Text_0))
    } else {
        None
    }
}

/// The four inbox messages an account creation declares, if so typed.
pub open spec fn front_add_params(c: ConnV) -> Option<(Seq<char>, Seq<char>, Seq<char>, UserRole)> {
    if c.inbox.len() >= 4 && c.inbox[0] is Text && c.inbox[1] is Text && c.inbox[2] is Text
        && c.inbox[3] is Role {
        Some((c.inbox[0]->Text_0, c.inbox[1]->Text_0, c.inbox[2]->Text_0, c.inbox[3]->Role_0))
    } else {
        None
    }
}

/// The listing gate: the policy table alone decides, for the session's
/// subject; authentication is not required of the subject itself.
pub open spec fn gate_show_users(policy: Seq<PolicyRule>, subject: Subject) -> Result<
    (),
    DomainError,
> {
    if !crate::policy::allows(policy, subject, Resource::ShowUsers) {
        Err(DomainError::Forbidden)
    } else {
        Ok(())
    }
}

/// The own-phone gate: authentication, authorization, then format validation.
pub open spec fn gate_change_own_phone(
    policy: Seq<PolicyRule>,
    subject: Subject,
    phone: Seq<char>,
) -> Result<(), DomainError> {
    if subject is Anonymous {
        Err(DomainError::Unauthenticated)
    } else if !crate::policy::allows(policy, subject, Resource::ChangeOwnPhone) {
        Err(DomainError::Forbidden)
    } else if !is_valid_phone(phone) {
        Err(DomainError::InvalidPhone)
    } else {
        Ok(())
    }
}

/// The phone-change gate: authentication and authorization are decided before
/// the target's existence, so an unauthorized caller learns nothing about who
/// exists; then the referential check, then format validation.
pub open spec fn gate_change_phone(
    policy: Seq<PolicyRule>,
    db: Seq<AccountRec>,
    subject: Subject,
    target: Seq<char>,
    phone: Seq<char>,
) -> Result<(), DomainError> {
    if subject is Anonymous {
        Err(DomainError::Unauthenticated)
    } else if !crate::policy::allows(policy, subject, Resource::ChangePhone) {
        Err(DomainError::Forbidden)
    } else if lookup(db, target) is None {
        Err(DomainError::TargetNotFound)
    } else if !is_valid_phone(phone) {
        Err(DomainError::InvalidPhone)
    } else {
        Ok(())
    }
}

/// The account-creation gate: authentication, authorization, the conflict
/// check, then the format checks in the order username, password, phone.
pub open spec fn gate_add_user(
    policy: Seq<PolicyRule>,
    db: Seq<AccountRec>,
    subject: Subject,
    name: Seq<char>,
    password: Seq<char>,
    phone: Seq<char>,
) -> Result<(), DomainError> {
    if subject is Anonymous {
        Err(DomainError::Unauthenticated)
    } else if !crate::policy::allows(policy, subject, Resource::AddUser) {
        Err(DomainError::Forbidden)
    } else if lookup(db, name) is Some {
        Err(DomainError::UserExists)
    } else if !is_valid_username(name) {
        Err(DomainError::InvalidUsername)
    } else if !is_valid_password(password) {
        Err(DomainError::InvalidPassword)
    } else if !is_valid_phone(phone) {
        Err(DomainError::InvalidPhone)
    } else {
        Ok(())
    }
}

/// Listing users sends a single message: the projection list if the policy
/// decision favors the subject, that decision's failure if not.
pub open spec fn show_users_post(
    policy: Seq<PolicyRule>,
    db: Seq<AccountRec>,
    pre: SessionV,
    post: SessionV,
    r: Result<(), Termination>,
) -> bool {
    let d = gate_show_users(policy, subject_of(pre, db));
    &&& r is Ok
    &&& post.identity == pre.identity
    &&& post.conn.inbox == pre.conn.inbox
    &&& post.conn.outbox == pre.conn.outbox.push(
        MsgV::Reply(
            match d {
                Ok(_) => Ok(BodyV::Users(projections_of(db))),
                Err(e) => Err(e),
            },
        ),
    )
}

/// What changing one's own phone number does: the caller's record is
/// rewritten whole with the new number exactly when every gate passes, and
/// the one reply reports the decision.
pub open spec fn change_own_phone_post(
    policy: Seq<PolicyRule>,
    pre: SessionV,
    post: SessionV,
    pre_db: Seq<AccountRec>,
    post_db: Seq<AccountRec>,
    r: Result<(), Termination>,
) -> bool {
    match front_text(pre.conn) {
        None => {
            &&& r == Err::<(), Termination>(Termination::Protocol)
            &&& post.identity == pre.identity
            &&& post_db == pre_db
            &&& post.conn.outbox == pre.conn.outbox
        },
        Some(phone) => {
            let d = gate_change_own_phone(policy, subject_of(pre, pre_db), phone);
            &&& r is Ok
            &&& post.identity == pre.identity
            &&& post.conn.inbox == pre.conn.inbox.drop_first()
            &&& post.conn.outbox == pre.conn.outbox.push(done_reply(d))
            &&& match d {
                Ok(_) => {
                    let me = pre.identity->0;
                    &&& lookup(post_db, me) == Some(
                        (AccountRec { phone_number: phone, ..lookup(pre_db, me)->0 }),
                    )
                    &&& forall|k: Seq<char>|
                        !seq_eq_fold(k, me) ==> lookup(post_db, k) == lookup(pre_db, k)
                    &&& post_db.len() == pre_db.len()
                },
                Err(_) => post_db == pre_db,
            }
        },
    }
}

/// What changing another account's phone number does: the target's record is
/// rewritten whole with the new number exactly when every gate passes, in
/// gating order, and the one reply reports the decision.
pub open spec fn change_phone_post(
    policy: Seq<PolicyRule>,
    pre: SessionV,
    post: SessionV,
    pre_db: Seq<AccountRec>,
    post_db: Seq<AccountRec>,
    r: Result<(), Termination>,
) -> bool {
    match front_texts2(pre.conn) {
        None => {
            &&& r == Err::<(), Termination>(Termination::Protocol)
            &&& post.identity == pre.identity
            &&& post_db == pre_db
            &&& post.conn.outbox == pre.conn.outbox
        },
        Some((target, phone)) => {
            let d = gate_change_phone(policy, pre_db, subject_of(pre, pre_db), target, phone);
            &&& r is Ok
            &&& post.identity == pre.identity
            &&& post.conn.inbox == pre.conn.inbox.skip(2)
            &&& post.conn.outbox == pre.conn.outbox.push(done_reply(d))
            &&& match d {
                Ok(_) => {
                    &&& lookup(post_db, target) == Some(
                        (AccountRec { phone_number: phone, ..lookup(pre_db, target)->0 }),
                    )
                    &&& forall|k: Seq<char>|
                        !seq_eq_fold(k, target) ==> lookup(post_db, k) == lookup(pre_db, k)
                    &&& post_db.len() == pre_db.len()
                },
                Err(_) => post_db == pre_db,
            }
        },
    }
}

/// What account creation does: a fresh record, digest in place of the
/// password, is appended exactly when every gate passes; a hashing failure
/// ends the session with nothing stored and nothing sent; the password
/// itself is never echoed.
pub open spec fn add_user_post(
    policy: Seq<PolicyRule>,
    pre: SessionV,
    post: SessionV,
    pre_db: Seq<AccountRec>,
    post_db: Seq<AccountRec>,
    r: Result<(), Termination>,
) -> bool {
    match front_add_params(pre.conn) {
        None => {
            &&& r == Err::<(), Termination>(Termination::Protocol)
            &&& post.identity == pre.identity
            &&& post_db == pre_db
            &&& post.conn.outbox == pre.conn.outbox
        },
        Some((name, password, phone, role)) => {
            let d = gate_add_user(policy, pre_db, subject_of(pre, pre_db), name, password, phone);
            &&& post.identity == pre.identity
            &&& post.conn.inbox == pre.conn.inbox.skip(4)
            &&& match d {
                Ok(_) => {
                    &&& r is Ok ==> (exists|digest: Seq<char>|
                        post_db == pre_db.push(
                            (AccountRec {
                                username: name,
                                password: digest,
                                phone_number: phone,
                                role,
                            }),
                        )) && post.conn.outbox == pre.conn.outbox.push(
                        done_reply(Ok(())),
                    )
                    &&& r is Err ==> r == Err::<(), Termination>(Termination::Internal) && post_db
                        == pre_db && post.conn.outbox == pre.conn.outbox
                },
                Err(e) => {
                    &&& r is Ok
                    &&& post_db == pre_db
                    &&& post.conn.outbox == pre.conn.outbox.push(done_reply(Err(e)))
                },
            }
        },
    }
}

/// What a login attempt does.  An authenticated session is refused without
/// touching the verifier.  Otherwise the verify primitive runs exactly once —
/// against the stored digest when the username resolves, against the fixed
/// dummy digest when it does not — and only a verified match authenticates
/// the session.  Wrong password and unknown username produce the same reply
/// and the same verification count.
pub open spec fn login_post(
    pre: SessionV,
    db: Seq<AccountRec>,
    pre_calls: u64,
    post: SessionV,
    post_calls: u64,
    r: Result<(), Termination>,
) -> bool {
    match front_texts2(pre.conn) {
        None => {
            &&& r == Err::<(), Termination>(Termination::Protocol)
            &&& post.identity == pre.identity
            &&& post.conn.outbox == pre.conn.outbox
            &&& post_calls == pre_calls
        },
        Some((name, password)) => {
            &&& post.conn.inbox == pre.conn.inbox.skip(2)
            &&& if pre.identity is Some {
                &&& post_calls == pre_calls
                &&& r is Ok
                &&& post.identity == pre.identity
                &&& post.conn.outbox == pre.conn.outbox.push(
                    done_reply(Err(DomainError::AlreadyLoggedIn)),
                )
            } else {
                &&& post_calls == pre_calls + 1
                &&& match lookup(db, name) {
                    Some(acc) => match verify_outcome(password, acc.password) {
                        Some(true) => {
                            &&& r is Ok
                            &&& post.identity == Some(name)
                            &&& post.conn.outbox == pre.conn.outbox.push(done_reply(Ok(())))
                        },
                        Some(false) => {
                            &&& r is Ok
                            &&& post.identity is None
                            &&& post.conn.outbox == pre.conn.outbox.push(
                                done_reply(Err(DomainError::AuthenticationFailed)),
                            )
                        },
                        None => {
                            &&& r == Err::<(), Termination>(Termination::Internal)
                            &&& post.identity is None
                            &&& post.conn.outbox == pre.conn.outbox
                        },
                    },
                    None => match verify_outcome(DUMMY_PASSWORD@, DUMMY_DIGEST@) {
                        Some(_) => {
                            &&& r is Ok
                            &&& post.identity is None
                            &&& post.conn.outbox == pre.conn.outbox.push(
                                done_reply(Err(DomainError::AuthenticationFailed)),
                            )
                        },
                        None => {
                            &&& r == Err::<(), Termination>(Termination::Internal)
                            &&& post.identity is None
                            &&& post.conn.outbox == pre.conn.outbox
                        },
                    },
                }
            }
        },
    }
}

/// What logging out does: an authenticated session becomes anonymous, an
/// anonymous one is told it is not logged in; one reply either way.
pub open spec fn logout_post(pre: SessionV, post: SessionV, r: Result<(), Termination>) -> bool {
    &&& r is Ok
    &&& post.conn.inbox == pre.conn.inbox
    &&& if pre.identity is Some {
        &&& post.identity is None
        &&& post.conn.outbox == pre.conn.outbox.push(done_reply(Ok(())))
    } else {
        &&& post.identity == pre.identity
        &&& post.conn.outbox == pre.conn.outbox.push(done_reply(Err(DomainError::NotLoggedIn)))
    }
}

/// A connected client: the optional authenticated identity and the channel.
pub struct ConnectedUser {
    username: Option<String>,
    /// The session's channel; the process boundary fills its inbox and
    /// drains its outbox between turns.
    pub conn: Connection,
}

impl View for ConnectedUser {
    type V = SessionV;

    closed spec fn view(&self) -> SessionV {
        SessionV {
            identity: match self.username {
                Some(s) => Some(s@),
                None => None,
            },
            conn: self.conn@,
        }
    }
}

impl ConnectedUser {
    /// A fresh session on `conn`: nobody is logged in.
    pub fn anonymous(conn: Connection) -> (u: ConnectedUser)
        ensures
            u@.identity is None,
            u@.conn == conn@,
    {
        ConnectedUser { username: None, conn }
    }

    /// The authenticated username; only an authenticated session has one.
    pub fn username(&mut self) -> (r: String)
        requires
            old(self)@.identity is Some,
        ensures
            *final (self) == *old(self),
            r@ == old(self)@.identity->0,
    {
        self.username.as_ref().unwrap().clone()
    }

    /// Authenticates the session as `username`.
    pub fn set_username(&mut self, username: &str)
        ensures
            final (self)@.identity == Some(username@),
            final (self)@.conn == old(self)@.conn,
    {
        self.username = Some(crate::text::copy_str(username));
    }

    /// The session's channel, for the process boundary to fill and drain.
    pub fn conn(&mut self) -> (c: &mut Connection)
        ensures
            (*c)@ == old(self)@.conn,
            final (self)@.identity == old(self)@.identity,
            final (self)@.conn == (*final (c))@,
    {
        &mut self.conn
    }

    pub fn is_anonymous(&self) -> (r: bool)
        ensures
            r == (self@.identity is None),
    {
        self.username.is_none()
    }

    /// Clears the authenticated identity.
    pub fn logout(&mut self)
        ensures
            final (self)@.identity is None,
            final (self)@.conn == old(self)@.conn,
    {
        self.username = None;
    }

    /// The caller's own account.  An identity that does not resolve would be
    /// a programming error, so resolution is demanded, not checked.
    pub fn user_account(&self, db: &Database) -> (r: UserAccount)
        requires
            self@.identity is Some,
            resolves(self@, db@),
        ensures
            Some(r@) == lookup(db@, self@.identity->0),
    {
        db.get(self.username.as_ref().unwrap().as_str()).unwrap()
    }
}

impl Action {
    /// Parses a selector by the alias table.
    pub fn from_selector(s: &str) -> (r: Option<Action>)
        ensures
            r == parse_selector(s@),
    {
        if str_eq(s, "Show users") || str_eq(s, "1") {
            Some(Action::ShowUsers)
        } else if str_eq(s, "Change my phone number") || str_eq(s, "2") {
            Some(Action::ChangeOwnPhone)
        } else if str_eq(s, "Show someone's phone number") || str_eq(s, "3") {
            Some(Action::ChangePhone)
        } else if str_eq(s, "Add user") || str_eq(s, "4") {
            Some(Action::AddUser)
        } else if str_eq(s, "Login") || str_eq(s, "5") {
            Some(Action::Login)
        } else if str_eq(s, "Logout") || str_eq(s, "6") {
            Some(Action::Logout)
        } else if str_eq(s, "Exit") || str_eq(s, "7") {
            Some(Action::Exit)
        } else {
            None
        }
    }

    /// How many parameter messages the action declares after its selector;
    /// all are text but the last one of an account creation, which is a role.
    pub fn param_count(&self) -> (n: usize)
        ensures
            n == match *self {
                Action::ShowUsers => 0int,
                Action::ChangeOwnPhone => 1int,
                Action::ChangePhone => 2int,
                Action::AddUser => 4int,
                Action::Login => 2int,
                Action::Logout => 0int,
                Action::Exit => 0int,
            },
    {
        match self {
            Action::ShowUsers => 0,
            Action::ChangeOwnPhone => 1,
            Action::ChangePhone => 2,
            Action::AddUser => 4,
            Action::Login => 2,
            Action::Logout => 0,
            Action::Exit => 0,
        }
    }

    /// Dispatches one selected action; `Exit` is the explicit termination
    /// signal and runs no handler.
    pub fn perform(
        &self,
        u: &mut ConnectedUser,
        db: &mut Database,
        policy: &PolicyTable,
        meter: &mut VerifyCounter,
    ) -> (r: Result<(), Termination>)
        requires
            old(db).wf(),
            resolves(old(u)@, old(db)@),
            old(meter).calls < u64::MAX,
        ensures
            final (db).wf(),
            resolves(final (u)@, final (db)@),
            match *self {
                Action::ShowUsers => show_users_post(policy@, old(db)@, old(u)@, final (u)@, r)
                    && final (db)@ == old(db)@ && final (meter).calls == old(meter).calls,
                Action::ChangeOwnPhone => change_own_phone_post(
                    policy@,
                    old(u)@,
                    final (u)@,
                    old(db)@,
                    final (db)@,
                    r,
                ) && final (meter).calls == old(meter).calls,
                Action::ChangePhone => change_phone_post(
                    policy@,
                    old(u)@,
                    final (u)@,
                    old(db)@,
                    final (db)@,
                    r,
                ) && final (meter).calls == old(meter).calls,
                Action::AddUser => add_user_post(
                    policy@,
                    old(u)@,
                    final (u)@,
                    old(db)@,
                    final (db)@,
                    r,
                ) && final (meter).calls == old(meter).calls,
                Action::Login => login_post(
                    old(u)@,
                    old(db)@,
                    old(meter).calls,
                    final (u)@,
                    final (meter).calls,
                    r,
                ) && final (db)@ == old(db)@,
                Action::Logout => logout_post(old(u)@, final (u)@, r) && final (db)@ == old(db)@
                    && final (meter).calls == old(meter).calls,
                Action::Exit => r == Err::<(), Termination>(Termination::ClientExit) && final (u)@
                    == old(u)@ && final (db)@ == old(db)@ && final (meter).calls == old(
                    meter,
                ).calls,
            },
    {
        match self {
            Action::ShowUsers => Action::show_users(u, db, policy),
            Action::ChangeOwnPhone => Action::change_own_phone(u, db, policy),
            Action::ChangePhone => Action::change_phone(u, db, policy),
            Action::AddUser => Action::add_user(u, db, policy),
            Action::Login => Action::login(u, db, meter),
            Action::Logout => Action::logout(u),
            Action::Exit => Err(Termination::ClientExit),
        }
    }

    /// Sends every account's redacted projection when the policy allows the
    /// session's subject to list users.
    pub fn show_users(u: &mut ConnectedUser, db: &Database, policy: &PolicyTable) -> (r: Result<
        (),
        Termination,
    >)
        requires
            resolves(old(u)@, db@),
        ensures
            resolves(final (u)@, db@),
            show_users_post(policy@, db@, old(u)@, final (u)@, r),
    {
        let subject = if u.is_anonymous() {
            Subject::Anonymous
        } else {
            Subject::Known(*u.user_account(db).role())
        };
        if policy.evaluate(subject, Resource::ShowUsers) {
            let infos = db.get_all_user_info();
            proof {
                assert(infos@.map_values(|i: crate::user::UserInfo| i@) =~= projections_of(db@));
            }
            u.conn.send_users_reply(infos);
        } else {
            u.conn.send_done_reply(Err(DomainError::Forbidden));
        }
        Ok(())
    }

    /// Rewrites the caller's own record with a new phone number, gated in
    /// order: authentication, authorization, format validation.
    pub fn change_own_phone(u: &mut ConnectedUser, db: &mut Database, policy: &PolicyTable) -> (r:
        Result<(), Termination>)
        requires
            old(db).wf(),
            resolves(old(u)@, old(db)@),
        ensures
            final (db).wf(),
            resolves(final (u)@, final (db)@),
            change_own_phone_post(policy@, old(u)@, final (u)@, old(db)@, final (db)@, r),
    {
        let phone = match u.conn.receive_text() {
            Ok(p) => p,
            Err(t) => {
                return Err(t);
            },
        };
        let decision: Result<(), DomainError>;
        if u.is_anonymous() {
            decision = Err(DomainError::Unauthenticated);
        } else {
            let mut me = u.user_account(db);
            proof {
                crate::database::lemma_lookup_matches_key(db@, old(u)@.identity->0);
            }
            if !policy.evaluate(Subject::Known(*me.role()), Resource::ChangeOwnPhone) {
                decision = Err(DomainError::Forbidden);
            } else if !validate_phone(phone.as_str()) {
                decision = Err(DomainError::InvalidPhone);
            } else {
                me.set_phone_number(phone);
                db.insert(&me);
                decision = Ok(());
            }
        }
        u.conn.send_done_reply(decision);
        Ok(())
    }

    /// Rewrites a target account's record with a new phone number, gated in
    /// order: authentication, authorization, target existence, format
    /// validation.
    pub fn change_phone(u: &mut ConnectedUser, db: &mut Database, policy: &PolicyTable) -> (r:
        Result<(), Termination>)
        requires
            old(db).wf(),
            resolves(old(u)@, old(db)@),
        ensures
            final (db).wf(),
            resolves(final (u)@, final (db)@),
            change_phone_post(policy@, old(u)@, final (u)@, old(db)@, final (db)@, r),
    {
        let target = match u.conn.receive_text() {
            Ok(p) => p,
            Err(t) => {
                return Err(t);
            },
        };
        let phone = match u.conn.receive_text() {
            Ok(p) => p,
            Err(t) => {
                return Err(t);
            },
        };
        proof {
            assert(u@.conn.inbox =~= old(u)@.conn.inbox.skip(2));
        }
        let decision: Result<(), DomainError>;
        if u.is_anonymous() {
            decision = Err(DomainError::Unauthenticated);
        } else {
            let me = u.user_account(db);
            if !policy.evaluate(Subject::Known(*me.role()), Resource::ChangePhone) {
                decision = Err(DomainError::Forbidden);
            } else {
                match db.get(target.as_str()) {
                    None => {
                        decision = Err(DomainError::TargetNotFound);
                    },
                    Some(mut found) => {
                        proof {
                            crate::database::lemma_lookup_matches_key(db@, target@);
                        }
                        if !validate_phone(phone.as_str()) {
                            decision = Err(DomainError::InvalidPhone);
                        } else {
                            found.set_phone_number(phone);
                            db.insert(&found);
                            decision = Ok(());
                        }
                    },
                }
            }
        }
        u.conn.send_done_reply(decision);
        Ok(())
    }

    /// Creates an account from four declared parameters, gated in order:
    /// authentication, authorization, conflict, then username, password and
    /// phone format.  The stored record carries the digest, never the
    /// password.
    pub fn add_user(u: &mut ConnectedUser, db: &mut Database, policy: &PolicyTable) -> (r: Result<
        (),
        Termination,
    >)
        requires
            old(db).wf(),
            resolves(old(u)@, old(db)@),
        ensures
            final (db).wf(),
            resolves(final (u)@, final (db)@),
            add_user_post(policy@, old(u)@, final (u)@, old(db)@, final (db)@, r),
    {
        let username = match u.conn.receive_text() {
            Ok(p) => p,
            Err(t) => {
                return Err(t);
            },
        };
        let password = match u.conn.receive_text() {
            Ok(p) => p,
            Err(t) => {
                return Err(t);
            },
        };
        let phone = match u.conn.receive_text() {
            Ok(p) => p,
            Err(t) => {
                return Err(t);
            },
        };
        let role = match u.conn.receive_role() {
            Ok(p) => p,
            Err(t) => {
                return Err(t);
            },
        };
        proof {
            assert(u@.conn.inbox =~= old(u)@.conn.inbox.skip(4));
        }
        let decision: Result<(), DomainError>;
        if u.is_anonymous() {
            decision = Err(DomainError::Unauthenticated);
        } else {
            let me = u.user_account(db);
            if !policy.evaluate(Subject::Known(*me.role()), Resource::AddUser) {
                decision = Err(DomainError::Forbidden);
            } else if db.get(username.as_str()).is_some() {
                decision = Err(DomainError::UserExists);
            } else if !validate_username(username.as_str()) {
                decision = Err(DomainError::InvalidUsername);
            } else if !validate_password(password.as_str()) {
                decision = Err(DomainError::InvalidPassword);
            } else if !validate_phone(phone.as_str()) {
                decision = Err(DomainError::InvalidPhone);
            } else {
                let ghost name = username@;
                let ghost ph = phone@;
                let ghost pre_db = db@;
                let digest = match hash_password(password.as_str()) {
                    Ok(d) => d,
                    Err(_) => {
                        return Err(Termination::Internal);
                    },
                };
                let account = UserAccount::new(username, digest, phone, role);
                db.insert(&account);
                proof {
                    assert(db@ == pre_db.push(account@));
                }
                decision = Ok(());
            }
        }
        u.conn.send_done_reply(decision);
        Ok(())
    }

    /// Authenticates the session.  The verify primitive runs exactly once per
    /// attempt, against the stored digest or against `DUMMY_DIGEST`, so the
    /// unknown-username path costs what the wrong-password path costs.
    pub fn login(u: &mut ConnectedUser, db: &Database, meter: &mut VerifyCounter) -> (r: Result<
        (),
        Termination,
    >)
        requires
            resolves(old(u)@, db@),
            old(meter).calls < u64::MAX,
        ensures
            resolves(final (u)@, db@),
            login_post(old(u)@, db@, old(meter).calls, final (u)@, final (meter).calls, r),
    {
        let username = match u.conn.receive_text() {
            Ok(p) => p,
            Err(t) => {
                return Err(t);
            },
        };
        let password = match u.conn.receive_text() {
            Ok(p) => p,
            Err(t) => {
                return Err(t);
            },
        };
        proof {
            assert(u@.conn.inbox =~= old(u)@.conn.inbox.skip(2));
        }
        if !u.is_anonymous() {
            u.conn.send_done_reply(Err(DomainError::AlreadyLoggedIn));
            return Ok(());
        }
        match db.get(username.as_str()) {
            Some(account) => {
                match meter.verify(password.as_str(), account.password()) {
                    Err(_) => Err(Termination::Internal),
                    Ok(true) => {
                        u.set_username(username.as_str());
                        u.conn.send_done_reply(Ok(()));
                        Ok(())
                    },
                    Ok(false) => {
                        u.conn.send_done_reply(Err(DomainError::AuthenticationFailed));
                        Ok(())
                    },
                }
            },
            None => {
                match meter.verify(DUMMY_PASSWORD, DUMMY_DIGEST) {
                    Err(_) => Err(Termination::Internal),
                    Ok(_) => {
                        u.conn.send_done_reply(Err(DomainError::AuthenticationFailed));
                        Ok(())
                    },
                }
            },
        }
    }

    /// Ends the authenticated state, or reports that none exists.
    pub fn logout(u: &mut ConnectedUser) -> (r: Result<(), Termination>)
        ensures
            logout_post(old(u)@, final (u)@, r),
    {
        let decision: Result<(), DomainError>;
        if u.is_anonymous() {
            decision = Err(DomainError::NotLoggedIn);
        } else {
            u.logout();
            decision = Ok(());
        }
        u.conn.send_done_reply(decision);
        Ok(())
    }
}

/// The banner that opens a turn: a fixed greeting; for an authenticated
/// session, the stored username; for the HR role, additionally the day's
/// quote — an informational line with no security meaning.
pub open spec fn banner_of(u: SessionV, db: Seq<AccountRec>, quote: Seq<char>) -> Seq<char> {
    let base = "Welcome to RESIGN (hR onlinE uSer dIrectory manaGemeNt)!"@;
    match u.identity {
        None => base,
        Some(n) => {
            let acc = lookup(db, n)->0;
            let named = base + "\nCurrently logged in as "@ + acc.username;
            if acc.role is HR {
                named + "\nQuote of the day: "@ + quote + "\n"@
            } else {
                named
            }
        },
    }
}

/// Builds `banner_of` for the session.
pub fn banner(u: &ConnectedUser, db: &Database, quote: &str) -> (r: String)
    requires
        resolves(u@, db@),
    ensures
        r@ == banner_of(u@, db@, quote@),
{
    let mut s = crate::text::copy_str("Welcome to RESIGN (hR onlinE uSer dIrectory manaGemeNt)!");
    if !u.is_anonymous() {
        let acc = u.user_account(db);
        s.append("\nCurrently logged in as ");
        s.append(acc.username());
        match *acc.role() {
            UserRole::HR => {
                s.append("\nQuote of the day: ");
                s.append(quote);
                s.append("\n");
            },
            UserRole::StandardUser => {},
        }
    }
    s
}

/// What one loop turn does: the banner is sent, one selector is read and
/// dispatched, and the dispatched action behaves as its own contract says on
/// the state left after banner and selector; an unparseable selector is a
/// fatal protocol error.
pub open spec fn session_turn_post(
    policy: Seq<PolicyRule>,
    pre: SessionV,
    post: SessionV,
    pre_db: Seq<AccountRec>,
    post_db: Seq<AccountRec>,
    pre_calls: u64,
    post_calls: u64,
    quote: Seq<char>,
    r: Result<(), Termination>,
) -> bool {
    let sent = pre.conn.outbox.push(MsgV::Banner(banner_of(pre, pre_db, quote)));
    let mid = SessionV {
        identity: pre.identity,
        conn: ConnV { inbox: pre.conn.inbox.drop_first(), outbox: sent },
    };
    match front_text(pre.conn) {
        None => {
            &&& r == Err::<(), Termination>(Termination::Protocol)
            &&& post_db == pre_db
            &&& post.identity == pre.identity
            &&& post_calls == pre_calls
            &&& post.conn.outbox == sent
        },
        Some(sel) => match parse_selector(sel) {
            None => {
                &&& r == Err::<(), Termination>(Termination::Protocol)
                &&& post_db == pre_db
                &&& post.identity == pre.identity
                &&& post_calls == pre_calls
                &&& post.conn == mid.conn
            },
            Some(a) => match a {
                Action::ShowUsers => show_users_post(policy, pre_db, mid, post, r) && post_db
                    == pre_db && post_calls == pre_calls,
                Action::ChangeOwnPhone => change_own_phone_post(policy, mid, post, pre_db, post_db, r)
                    && post_calls == pre_calls,
                Action::ChangePhone => change_phone_post(policy, mid, post, pre_db, post_db, r)
                    && post_calls == pre_calls,
                Action::AddUser => add_user_post(policy, mid, post, pre_db, post_db, r)
                    && post_calls == pre_calls,
                Action::Login => login_post(mid, pre_db, pre_calls, post, post_calls, r) && post_db
                    == pre_db,
                Action::Logout => logout_post(mid, post, r) && post_db == pre_db && post_calls
                    == pre_calls,
                Action::Exit => {
                    &&& r == Err::<(), Termination>(Termination::ClientExit)
                    &&& post.identity == pre.identity
                    &&& post.conn == mid.conn
                    &&& post_db == pre_db
                    &&& post_calls == pre_calls
                },
            },
        },
    }
}

/// One turn of the connection loop: send the banner, read one selector,
/// dispatch it.  The process boundary runs this in a loop until it returns
/// a termination.
pub fn session_turn(
    u: &mut ConnectedUser,
    db: &mut Database,
    policy: &PolicyTable,
    meter: &mut VerifyCounter,
    quote: &str,
) -> (r: Result<(), Termination>)
    requires
        old(db).wf(),
        resolves(old(u)@, old(db)@),
        old(meter).calls < u64::MAX,
    ensures
        final (db).wf(),
        resolves(final (u)@, final (db)@),
        session_turn_post(
            policy@,
            old(u)@,
            final (u)@,
            old(db)@,
            final (db)@,
            old(meter).calls,
            final (meter).calls,
            quote@,
            r,
        ),
{
    let text = banner(u, db, quote);
    u.conn.send_banner(text);
    let selector = match u.conn.receive_text() {
        Ok(s) => s,
        Err(t) => {
            return Err(t);
        },
    };
    let action = match Action::from_selector(selector.as_str()) {
        Some(a) => a,
        None => {
            return Err(Termination::Protocol);
        },
    };
    action.perform(u, db, policy, meter)
}

} // verus!
