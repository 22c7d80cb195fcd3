use user_directory::action::{banner, session_turn, Action, ConnectedUser, DUMMY_DIGEST,
DUMMY_PASSWORD};
use user_directory::channel::{Connection, DomainError, Message, ReplyBody, Termination};
use user_directory::credential::{hash_password, verify_password, VerifyCounter};
use user_directory::database::{Database, SEED_HR_NAME, SEED_USER_NAME};
use user_directory::policy::PolicyTable;
use user_directory::user::UserRole;

fn session_with(texts: &[&str]) -> ConnectedUser {
    let mut conn = Connection::new();
    for t in texts {
        conn.push_incoming(Message::Text(t.to_string()));
    }
    ConnectedUser::anonymous(conn)
}

fn last_reply(u: &ConnectedUser) -> &Result<ReplyBody, DomainError> {
    match u.conn.outgoing().last().expect("a message was sent") {
        Message::Reply(r) => r,
        _ => panic!("last outbound message is not a reply"),
    }
}

fn err_text(u: &ConnectedUser) -> &'static str {
    match last_reply(u) {
        Err(e) => e.message(),
        Ok(_) => panic!("expected a failure reply"),
    }
}

#[test]
fn anonymous_show_users_gets_redacted_projections() {
    // Scenario: the default policy permits the anonymous subject to list.
    let mut u = session_with(&[]);
    let mut db = Database::default();
    let policy = PolicyTable::with_default_rules();
    let mut meter = VerifyCounter::new();
    let r = Action::ShowUsers.perform(&mut u, &mut db, &policy, &mut meter);
    assert!(r.is_ok());
    match last_reply(&u) {
        Ok(ReplyBody::Users(infos)) => {
            assert_eq!(infos.len(), 2);
            for info in infos {
                assert!(!info.username().contains("argon2"));
                assert!(!info.phone_number().contains("argon2"));
            }
            assert!(infos.iter().any(|i| i.username() == SEED_USER_NAME));
            assert!(infos.iter().any(|i| i.username() == SEED_HR_NAME));
        },
        _ => panic!("expected the projection list"),
    }
    assert_eq!(meter.calls, 0);
}

#[test]
fn unknown_username_and_wrong_password_cost_one_verification_each() {
    // Unknown username: the dummy digest is verified once.
    let mut u = session_with(&["nope", "whatever"]);
    let mut db = Database::default();
    let policy = PolicyTable::with_default_rules();
    let mut meter = VerifyCounter::new();
    let r = Action::Login.perform(&mut u, &mut db, &policy, &mut meter);
    assert!(r.is_ok());
    assert_eq!(err_text(&u), "Authentication failed");
    assert!(u.is_anonymous());
    assert_eq!(meter.calls, 1);

    // Known username, wrong password: the same reply, the same count.
    let mut u2 = session_with(&[SEED_USER_NAME, "WrongPass1!"]);
    let mut meter2 = VerifyCounter::new();
    let r2 = Action::Login.perform(&mut u2, &mut db, &policy, &mut meter2);
    assert!(r2.is_ok());
    assert_eq!(err_text(&u2), "Authentication failed");
    assert!(u2.is_anonymous());
    assert_eq!(meter2.calls, meter.calls);
}

#[test]
fn login_with_correct_password_authenticates() {
    let mut u = session_with(&[SEED_HR_NAME, "Test1234."]);
    let mut db = Database::default();
    let policy = PolicyTable::with_default_rules();
    let mut meter = VerifyCounter::new();
    let r = Action::Login.perform(&mut u, &mut db, &policy, &mut meter);
    assert!(r.is_ok());
    assert!(matches!(last_reply(&u), Ok(ReplyBody::Done)));
    assert!(!u.is_anonymous());
    assert_eq!(u.username(), SEED_HR_NAME);
    assert_eq!(meter.calls, 1);

    // A second login on the authenticated session is refused without a
    // verification.
    u.conn.push_incoming(Message::Text(SEED_HR_NAME.to_string()));
    u.conn.push_incoming(Message::Text("Test1234.".to_string()));
    let r2 = Action::Login.perform(&mut u, &mut db, &policy, &mut meter);
    assert!(r2.is_ok());
    assert_eq!(err_text(&u), "You are already logged in");
    assert_eq!(meter.calls, 1);
}

#[test]
fn standard_user_may_not_add_users() {
    // Scenario: the default policy denies the standard role this resource.
    let mut conn = Connection::new();
    conn.push_incoming(Message::Text("alice".to_string()));
    conn.push_incoming(Message::Text("Strong1!".to_string()));
    conn.push_incoming(Message::Text("0791234567".to_string()));
    conn.push_incoming(Message::Role(UserRole::StandardUser));
    let mut u = ConnectedUser::anonymous(conn);
    u.set_username(SEED_USER_NAME);
    let mut db = Database::default();
    let policy = PolicyTable::with_default_rules();
    let mut meter = VerifyCounter::new();
    let r = Action::AddUser.perform(&mut u, &mut db, &policy, &mut meter);
    assert!(r.is_ok());
    assert_eq!(err_text(&u), "forbidden");
    assert!(db.get("alice").is_none());
}

#[test]
fn hr_adds_a_user_once_and_conflicts_after() {
    // Scenario: creation succeeds for HR, repeating it conflicts, and the
    // stored record is not overwritten.
    let mut db = Database::default();
    let policy = PolicyTable::with_default_rules();
    let mut meter = VerifyCounter::new();

    let mut conn = Connection::new();
    conn.push_incoming(Message::Text("alice".to_string()));
    conn.push_incoming(Message::Text("Strong1!".to_string()));
    conn.push_incoming(Message::Text("0791234567".to_string()));
    conn.push_incoming(Message::Role(UserRole::StandardUser));
    let mut u = ConnectedUser::anonymous(conn);
    u.set_username(SEED_HR_NAME);
    let r = Action::AddUser.perform(&mut u, &mut db, &policy, &mut meter);
    assert!(r.is_ok());
    assert!(matches!(last_reply(&u), Ok(ReplyBody::Done)));

    let stored = db.get("alice").expect("created account");
    assert_eq!(stored.phone_number(), "0791234567");
    assert_ne!(stored.password(), "Strong1!");
    let first_digest = stored.password().to_string();

    u.conn.push_incoming(Message::Text("alice".to_string()));
    u.conn.push_incoming(Message::Text("Other2@x".to_string()));
    u.conn.push_incoming(Message::Text("0790000000".to_string()));
    u.conn.push_incoming(Message::Role(UserRole::HR));
    let r2 = Action::AddUser.perform(&mut u, &mut db, &policy, &mut meter);
    assert!(r2.is_ok());
    assert_eq!(err_text(&u), "User already exists");
    let still = db.get("alice").expect("first record kept");
    assert_eq!(still.phone_number(), "0791234567");
    assert_eq!(still.password(), first_digest);
    assert!(matches!(still.role(), UserRole::StandardUser));

    // The created account can log in with its password.
    let mut u2 = session_with(&["alice", "Strong1!"]);
    let mut meter2 = VerifyCounter::new();
    let r3 = Action::Login.perform(&mut u2, &mut db, &policy, &mut meter2);
    assert!(r3.is_ok());
    assert!(matches!(last_reply(&u2), Ok(ReplyBody::Done)));
    assert!(!u2.is_anonymous());
}

#[test]
fn add_user_validates_inputs_in_order() {
    let mut db = Database::default();
    let policy = PolicyTable::with_default_rules();
    let mut meter = VerifyCounter::new();
    let cases: [(&str, &str, &str, &str); 3] = [
        ("bad name!", "Strong1!", "0791234567", "Invalid username"),
        ("bob", "weak", "0791234567", "Invalid password"),
        ("bob", "Strong1!", "123", "Invalid phone number"),
    ];
    for (name, password, phone, expected) in cases {
        let mut conn = Connection::new();
        conn.push_incoming(Message::Text(name.to_string()));
        conn.push_incoming(Message::Text(password.to_string()));
        conn.push_incoming(Message::Text(phone.to_string()));
        conn.push_incoming(Message::Role(UserRole::StandardUser));
        let mut u = ConnectedUser::anonymous(conn);
        u.set_username(SEED_HR_NAME);
        let r = Action::AddUser.perform(&mut u, &mut db, &policy, &mut meter);
        assert!(r.is_ok());
        assert_eq!(err_text(&u), expected);
    }
    assert!(db.get("bob").is_none());
}

#[test]
fn change_phone_gate_decides_before_target_lookup() {
    // Anonymous caller, nonexistent target: unauthenticated, not not-found.
    let mut db = Database::default();
    let policy = PolicyTable::with_default_rules();
    let mut meter = VerifyCounter::new();
    let mut u = session_with(&["ghost", "0790000000"]);
    let r = Action::ChangePhone.perform(&mut u, &mut db, &policy, &mut meter);
    assert!(r.is_ok());
    assert_eq!(err_text(&u), "unauthenticated");

    // Unauthorized caller, nonexistent target: forbidden, not not-found.
    let mut u2 = session_with(&["ghost", "0790000000"]);
    u2.set_username(SEED_USER_NAME);
    let r2 = Action::ChangePhone.perform(&mut u2, &mut db, &policy, &mut meter);
    assert!(r2.is_ok());
    assert_eq!(err_text(&u2), "forbidden");

    // Authorized caller, nonexistent target: only now the target is checked.
    let mut u3 = session_with(&["ghost", "0790000000"]);
    u3.set_username(SEED_HR_NAME);
    let r3 = Action::ChangePhone.perform(&mut u3, &mut db, &policy, &mut meter);
    assert!(r3.is_ok());
    assert_eq!(err_text(&u3), "Target user not found");
}

#[test]
fn changed_phone_is_read_back_everywhere() {
    let mut db = Database::default();
    let policy = PolicyTable::with_default_rules();
    let mut meter = VerifyCounter::new();
    let mut u = session_with(&[SEED_USER_NAME, "0700000000"]);
    u.set_username(SEED_HR_NAME);
    let r = Action::ChangePhone.perform(&mut u, &mut db, &policy, &mut meter);
    assert!(r.is_ok());
    assert!(matches!(last_reply(&u), Ok(ReplyBody::Done)));

    let got = db.get(SEED_USER_NAME).expect("target still stored");
    assert_eq!(got.phone_number(), "0700000000");
    let infos = db.get_all_user_info();
    assert!(infos.iter().any(|i| i.username() == SEED_USER_NAME && i.phone_number()
        == "0700000000"));
    assert!(!infos.iter().any(|i| i.phone_number() == "0784539872"));
}

#[test]
fn own_phone_change_rewrites_the_callers_record() {
    let mut db = Database::default();
    let policy = PolicyTable::with_default_rules();
    let mut meter = VerifyCounter::new();
    let mut u = session_with(&["0712345678"]);
    u.set_username(SEED_USER_NAME);
    let r = Action::ChangeOwnPhone.perform(&mut u, &mut db, &policy, &mut meter);
    assert!(r.is_ok());
    assert!(matches!(last_reply(&u), Ok(ReplyBody::Done)));
    assert_eq!(db.get(SEED_USER_NAME).unwrap().phone_number(), "0712345678");

    // An invalid number is rejected and changes nothing.
    u.conn.push_incoming(Message::Text("12".to_string()));
    let r2 = Action::ChangeOwnPhone.perform(&mut u, &mut db, &policy, &mut meter);
    assert!(r2.is_ok());
    assert_eq!(err_text(&u), "Invalid phone number");
    assert_eq!(db.get(SEED_USER_NAME).unwrap().phone_number(), "0712345678");
}

#[test]
fn logout_anonymous_errs_and_logout_authenticated_clears() {
    // Scenario: logout while anonymous, then a full logout, then a gated
    // action on the now-anonymous session.
    let mut db = Database::default();
    let policy = PolicyTable::with_default_rules();
    let mut meter = VerifyCounter::new();
    let mut u = session_with(&[]);
    let r = Action::Logout.perform(&mut u, &mut db, &policy, &mut meter);
    assert!(r.is_ok());
    assert_eq!(err_text(&u), "You are not logged in");

    u.set_username(SEED_USER_NAME);
    let r2 = Action::Logout.perform(&mut u, &mut db, &policy, &mut meter);
    assert!(r2.is_ok());
    assert!(matches!(last_reply(&u), Ok(ReplyBody::Done)));
    assert!(u.is_anonymous());

    u.conn.push_incoming(Message::Text("0712345678".to_string()));
    let r3 = Action::ChangeOwnPhone.perform(&mut u, &mut db, &policy, &mut meter);
    assert!(r3.is_ok());
    assert_eq!(err_text(&u), "unauthenticated");
}

#[test]
fn selectors_parse_by_phrase_and_code() {
    assert!(matches!(Action::from_selector("Show users"), Some(Action::ShowUsers)));
    assert!(matches!(Action::from_selector("1"), Some(Action::ShowUsers)));
    assert!(matches!(Action::from_selector("Change my phone number"), Some(Action::ChangeOwnPhone)));
    assert!(matches!(Action::from_selector("2"), Some(Action::ChangeOwnPhone)));
    assert!(matches!(Action::from_selector("Show someone's phone number"), Some(Action::ChangePhone)));
    assert!(matches!(Action::from_selector("3"), Some(Action::ChangePhone)));
    assert!(matches!(Action::from_selector("Add user"), Some(Action::AddUser)));
    assert!(matches!(Action::from_selector("4"), Some(Action::AddUser)));
    assert!(matches!(Action::from_selector("Login"), Some(Action::Login)));
    assert!(matches!(Action::from_selector("5"), Some(Action::Login)));
    assert!(matches!(Action::from_selector("Logout"), Some(Action::Logout)));
    assert!(matches!(Action::from_selector("6"), Some(Action::Logout)));
    assert!(matches!(Action::from_selector("Exit"), Some(Action::Exit)));
    assert!(matches!(Action::from_selector("7"), Some(Action::Exit)));
    assert!(Action::from_selector("exit").is_none());
    assert!(Action::from_selector("8").is_none());
    assert!(Action::from_selector("").is_none());
    assert_eq!(Action::ShowUsers.param_count(), 0);
    assert_eq!(Action::ChangeOwnPhone.param_count(), 1);
    assert_eq!(Action::ChangePhone.param_count(), 2);
    assert_eq!(Action::AddUser.param_count(), 4);
    assert_eq!(Action::Login.param_count(), 2);
    assert_eq!(Action::Logout.param_count(), 0);
    assert_eq!(Action::Exit.param_count(), 0);
}

#[test]
fn session_turn_sends_banner_then_dispatches() {
    let mut db = Database::default();
    let policy = PolicyTable::with_default_rules();
    let mut meter = VerifyCounter::new();

    // An exit selector ends the turn with the explicit termination signal.
    let mut u = session_with(&["7"]);
    let r = session_turn(&mut u, &mut db, &policy, &mut meter, "quote");
    assert!(matches!(r, Err(Termination::ClientExit)));
    match &u.conn.outgoing()[0] {
        Message::Banner(b) => assert!(b.starts_with("Welcome to RESIGN")),
        _ => panic!("the turn opens with a banner"),
    }

    // An unparseable selector is a protocol error, not an exit.
    let mut u2 = session_with(&["frobnicate"]);
    let r2 = session_turn(&mut u2, &mut db, &policy, &mut meter, "quote");
    assert!(matches!(r2, Err(Termination::Protocol)));

    // A listing selector dispatches and replies within the same turn.
    let mut u3 = session_with(&["1"]);
    let r3 = session_turn(&mut u3, &mut db, &policy, &mut meter, "quote");
    assert!(r3.is_ok());
    assert_eq!(u3.conn.outgoing().len(), 2);
    assert!(matches!(last_reply(&u3), Ok(ReplyBody::Users(_))));
}

#[test]
fn banner_reflects_identity_and_role() {
    let db = Database::default();
    let u = session_with(&[]);
    let b = banner(&u, &db, "ignored");
    assert_eq!(b, "Welcome to RESIGN (hR onlinE uSer dIrectory manaGemeNt)!");

    let mut u2 = session_with(&[]);
    u2.set_username(SEED_USER_NAME);
    let b2 = banner(&u2, &db, "ignored");
    assert!(b2.contains("Currently logged in as default_user"));
    assert!(!b2.contains("Quote of the day"));

    let mut u3 = session_with(&[]);
    u3.set_username(SEED_HR_NAME);
    let b3 = banner(&u3, &db, "Hire character. Train skill.");
    assert!(b3.contains("Currently logged in as default_hr"));
    assert!(b3.contains("Quote of the day: Hire character. Train skill."));
}

#[test]
fn ill_typed_parameters_are_fatal_protocol_errors() {
    let mut db = Database::default();
    let policy = PolicyTable::with_default_rules();
    let mut meter = VerifyCounter::new();

    // Missing parameters.
    let mut u = session_with(&[]);
    u.set_username(SEED_USER_NAME);
    let r = Action::ChangeOwnPhone.perform(&mut u, &mut db, &policy, &mut meter);
    assert!(matches!(r, Err(Termination::Protocol)));
    assert!(u.conn.outgoing().is_empty());

    // A role message where text is expected.
    let mut conn = Connection::new();
    conn.push_incoming(Message::Role(UserRole::HR));
    conn.push_incoming(Message::Text("whatever".to_string()));
    let mut u2 = ConnectedUser::anonymous(conn);
    let r2 = Action::Login.perform(&mut u2, &mut db, &policy, &mut meter);
    assert!(matches!(r2, Err(Termination::Protocol)));
}

#[test]
fn verify_wrapper_distinguishes_match_mismatch_and_malformed() {
    let digest = hash_password("Round3!trip").expect("hashing succeeds");
    assert_eq!(verify_password("Round3!trip", &digest), Ok(true));
    assert_eq!(verify_password("Wrong3!trip", &digest), Ok(false));
    assert!(verify_password("anything", "not a digest").is_err());

    let mut meter = VerifyCounter::new();
    assert!(meter.verify("anything", "not a digest").is_err());
    assert_eq!(meter.calls, 1);
    assert_eq!(meter.verify(DUMMY_PASSWORD, DUMMY_DIGEST), Ok(false));
    assert_eq!(meter.calls, 2);
}
