//! Accounts, their roles, and the redacted projection sent to clients.

use vstd::prelude::*;

verus! {

/// The role attached to an account; the policy gate decides per role what an
/// action may do.
#[derive(Clone, Copy, PartialEq, Eq, Structural, Debug)]
pub enum UserRole {
    StandardUser,
    HR,
}

/// Mathematical image of an account: each text field as its character
/// sequence.
pub ghost struct AccountRec {
    pub username: Seq<char>,
    pub password: Seq<char>,
    pub phone_number: Seq<char>,
    pub role: UserRole,
}

/// A directory account.  The `password` field holds the digest of the
/// password, never the password itself, and it is the one field that no
/// outbound message may carry.
pub struct UserAccount {
    username: String,
    password: String,
    phone_number: String,
    role: UserRole,
}

impl View for UserAccount {
    type V = AccountRec;

    closed spec fn view(&self) -> AccountRec {
        AccountRec {
            username: self.username@,
            password: self.password@,
            phone_number: self.phone_number@,
            role: self.role,
        }
    }
}

impl UserAccount {
    pub fn new(username: String, password: String, phone_number: String, role: UserRole) -> (r:
        Self)
        ensures
            r@ == (AccountRec {
                username: username@,
                password: password@,
                phone_number: phone_number@,
                role,
            }),
    {
        Self { username, password, phone_number, role }
    }

    pub fn username(&self) -> (r: &str)
        ensures
            r@ == self@.username,
    {
        self.username.as_str()
    }

    pub fn phone_number(&self) -> (r: &str)
        ensures
            r@ == self@.phone_number,
    {
        self.phone_number.as_str()
    }

    pub fn password(&self) -> (r: &str)
        ensures
            r@ == self@.password,
    {
        self.password.as_str()
    }

    pub fn role(&self) -> (r: &UserRole)
        ensures
            *r == self@.role,
    {
        &self.role
    }

    pub fn set_phone_number(&mut self, phone_number: String)
        ensures
            final (self)@ == (AccountRec { phone_number: phone_number@, ..old(self)@ }),
    {
        self.phone_number = phone_number;
    }

    /// The redacted projection of this account: username and phone number,
    /// nothing else.
    pub fn to_info(&self) -> (r: UserInfo)
        ensures
            r@ == (InfoRec { username: self@.username, phone_number: self@.phone_number }),
    {
        UserInfo { username: self.username.clone(), phone_number: self.phone_number.clone() }
    }
}

impl Clone for UserAccount {
    fn clone(&self) -> (r: Self)
        ensures
            r@ == self@,
    {
        Self {
            username: self.username.clone(),
            password: self.password.clone(),
            phone_number: self.phone_number.clone(),
            role: self.role,
        }
    }
}

/// Mathematical image of a projection.
pub ghost struct InfoRec {
    pub username: Seq<char>,
    pub phone_number: Seq<char>,
}

/// The only account-derived shape ever sent to a client: username and phone
/// number.  It has no digest field, so no reply can leak one.
pub struct UserInfo {
    username: String,
    phone_number: String,
}

impl View for UserInfo {
    type V = InfoRec;

    closed spec fn view(&self) -> InfoRec {
        InfoRec { username: self.username@, phone_number: self.phone_number@ }
    }
}

impl UserInfo {
    pub fn new(username: String, phone_number: String) -> (r: Self)
        ensures
            r@ == (InfoRec { username: username@, phone_number: phone_number@ }),
    {
        Self { username, phone_number }
    }

    pub fn username(&self) -> (r: &str)
        ensures
            r@ == self@.username,
    {
        self.username.as_str()
    }

    pub fn phone_number(&self) -> (r: &str)
        ensures
            r@ == self@.phone_number,
    {
        self.phone_number.as_str()
    }
}

impl Clone for UserInfo {
    fn clone(&self) -> (r: Self)
        ensures
            r@ == self@,
    {
        Self { username: self.username.clone(), phone_number: self.phone_number.clone() }
    }
}

} // verus!
