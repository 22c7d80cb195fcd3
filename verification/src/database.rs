//! The directory store: accounts keyed by username, compared
//! case-insensitively.  Stores are held exclusively (`&mut`) by their caller,
//! so the check-then-insert pairs in the action handlers are atomic.

use vstd::prelude::*;
use crate::text::{fold_seq, seq_eq_fold, str_eq_fold, copy_str};
use crate::user::{AccountRec, InfoRec, UserAccount, UserInfo, UserRole};

verus! {

/// The directory key of an account: the case-folded image of its username.
pub open spec fn key_of(rec: AccountRec) -> Seq<u32> {
    fold_seq(rec.username)
}

/// The first account whose key is `k`, if any.
pub open spec fn lookup_key(s: Seq<AccountRec>, k: Seq<u32>) -> Option<AccountRec>
    decreases s.len(),
{
    if s.len() == 0 {
        None
    } else if key_of(s[0]) == k {
        Some(s[0])
    } else {
        lookup_key(s.drop_first(), k)
    }
}

/// The account stored under `name`, compared case-insensitively.
pub open spec fn lookup(s: Seq<AccountRec>, name: Seq<char>) -> Option<AccountRec> {
    lookup_key(s, fold_seq(name))
}

/// No two accounts share a key: the username-uniqueness invariant.
pub open spec fn distinct_keys(s: Seq<AccountRec>) -> bool {
    forall|i: int, j: int|
        0 <= i < j < s.len() ==> key_of(#[trigger] s[i]) != key_of(#[trigger] s[j])
}

/// `lookup_key` returns `None` exactly when no account carries the key, and a
/// hit is an account of the sequence carrying it.
proof fn lemma_lookup_membership(s: Seq<AccountRec>, k: Seq<u32>)
    ensures
        lookup_key(s, k) is None <==> forall|i: int| 0 <= i < s.len() ==> key_of(#[trigger] s[i])
            != k,
        lookup_key(s, k) matches Some(r) ==> exists|i: int|
            0 <= i < s.len() && s[i] == r && key_of(r) == k,
    decreases s.len(),
{
    if s.len() > 0 {
        lemma_lookup_membership(s.drop_first(), k);
        assert forall|i: int| 0 < i < s.len() implies s.drop_first()[i - 1] == s[i] by {}
        if key_of(s[0]) != k {
            match lookup_key(s.drop_first(), k) {
                Some(r) => {
                    let i = choose|i: int|
                        0 <= i < s.drop_first().len() && s.drop_first()[i] == r && key_of(r) == k;
                    assert(s[i + 1] == r);
                },
                None => {},
            }
        }
    }
}

/// `lookup_key` finds the entry at `i` when nothing before `i` matches.
proof fn lemma_lookup_at(s: Seq<AccountRec>, k: Seq<u32>, i: int)
    requires
        0 <= i < s.len(),
        key_of(s[i]) == k,
        forall|j: int| 0 <= j < i ==> key_of(#[trigger] s[j]) != k,
    ensures
        lookup_key(s, k) == Some(s[i]),
    decreases i,
{
    if i > 0 {
        lemma_lookup_at(s.drop_first(), k, i - 1);
    }
}

/// Overwriting the entry at `i` with an account of the same key changes the
/// lookup of that key alone and keeps the keys distinct.
proof fn lemma_lookup_update(s: Seq<AccountRec>, i: int, rec: AccountRec, k: Seq<u32>)
    requires
        0 <= i < s.len(),
        distinct_keys(s),
        key_of(rec) == key_of(s[i]),
    ensures
        lookup_key(s.update(i, rec), k) == (if k == key_of(rec) {
            Some(rec)
        } else {
            lookup_key(s, k)
        }),
        distinct_keys(s.update(i, rec)),
    decreases i,
{
    let t = s.update(i, rec);
    assert(distinct_keys(t)) by {
        assert forall|x: int, y: int| 0 <= x < y < t.len() implies key_of(t[x]) != key_of(
            t[y],
        ) by {
            assert(key_of(t[x]) == key_of(s[x]) && key_of(t[y]) == key_of(s[y]));
        }
    }
    if i == 0 {
        assert(t.drop_first() =~= s.drop_first());
    } else {
        assert(t.drop_first() =~= s.drop_first().update(i - 1, rec));
        assert(distinct_keys(s.drop_first())) by {
            assert forall|x: int, y: int|
                0 <= x < y < s.drop_first().len() implies key_of(s.drop_first()[x]) != key_of(
                s.drop_first()[y],
            ) by {
                assert(s.drop_first()[x] == s[x + 1] && s.drop_first()[y] == s[y + 1]);
            }
        }
        assert(s.drop_first()[i - 1] == s[i]);
        lemma_lookup_update(s.drop_first(), i - 1, rec, k);
        assert(key_of(t[0]) == key_of(s[0]));
        if k == key_of(rec) {
            assert(key_of(s[0]) != key_of(s[i]));
        }
    }
}

/// Appending an account with a fresh key changes the lookup of that key alone
/// and keeps the keys distinct.
proof fn lemma_lookup_push(s: Seq<AccountRec>, rec: AccountRec, k: Seq<u32>)
    requires
        forall|i: int| 0 <= i < s.len() ==> key_of(#[trigger] s[i]) != key_of(rec),
        distinct_keys(s),
    ensures
        lookup_key(s.push(rec), k) == (if k == key_of(rec) {
            Some(rec)
        } else {
            lookup_key(s, k)
        }),
        distinct_keys(s.push(rec)),
    decreases s.len(),
{
    let t = s.push(rec);
    assert(distinct_keys(t)) by {
        assert forall|x: int, y: int| 0 <= x < y < t.len() implies key_of(t[x]) != key_of(
            t[y],
        ) by {
            assert(t[x] == s[x]);
            if y < s.len() {
                assert(t[y] == s[y]);
            } else {
                assert(t[y] == rec);
            }
        }
    }
    if s.len() == 0 {
        assert(t.len() == 1 && t[0] == rec);
        assert(t.drop_first() =~= Seq::<AccountRec>::empty());
    } else {
        assert(t[0] == s[0]);
        assert(t.drop_first() =~= s.drop_first().push(rec));
        assert forall|i: int|
            0 <= i < s.drop_first().len() implies key_of(#[trigger] s.drop_first()[i]) != key_of(
            rec,
        ) by {
            assert(s.drop_first()[i] == s[i + 1]);
        }
        assert(distinct_keys(s.drop_first())) by {
            assert forall|x: int, y: int|
                0 <= x < y < s.drop_first().len() implies key_of(s.drop_first()[x]) != key_of(
                s.drop_first()[y],
            ) by {
                assert(s.drop_first()[x] == s[x + 1] && s.drop_first()[y] == s[y + 1]);
            }
        }
        lemma_lookup_push(s.drop_first(), rec, k);
    }
}

/// A lookup hit carries the key it was found under.
pub proof fn lemma_lookup_matches_key(s: Seq<AccountRec>, name: Seq<char>)
    ensures
        lookup(s, name) matches Some(r) ==> seq_eq_fold(r.username, name),
{
    lemma_lookup_membership(s, fold_seq(name));
}

/// A lookup hit is an account of the store.
pub proof fn lemma_lookup_index(s: Seq<AccountRec>, name: Seq<char>)
    ensures
        lookup(s, name) matches Some(r) ==> exists|i: int| 0 <= i < s.len() && s[i] == r,
{
    lemma_lookup_membership(s, fold_seq(name));
}

/// Appending an account under a fresh username changes the lookup of that
/// username alone.
pub proof fn lemma_lookup_after_push(s: Seq<AccountRec>, rec: AccountRec, k: Seq<char>)
    requires
        distinct_keys(s),
        lookup(s, rec.username) is None,
    ensures
        lookup(s.push(rec), k) == (if seq_eq_fold(k, rec.username) {
            Some(rec)
        } else {
            lookup(s, k)
        }),
{
    lemma_lookup_membership(s, fold_seq(rec.username));
    lemma_lookup_push(s, rec, fold_seq(k));
}

/// The redacted projection of a store: username and phone number of each
/// account, in store order, and no digest.
pub open spec fn projections_of(s: Seq<AccountRec>) -> Seq<InfoRec> {
    s.map_values(|a: AccountRec| InfoRec { username: a.username, phone_number: a.phone_number })
}

/// Keyed storage for accounts.  Mutation is whole-record overwrite keyed by
/// username; accounts are never deleted.
pub struct Database {
    data: Vec<UserAccount>,
}

impl View for Database {
    type V = Seq<AccountRec>;

    closed spec fn view(&self) -> Seq<AccountRec> {
        self.data@.map_values(|a: UserAccount| a@)
    }
}

/// Username of the account seeded for first use with the standard role.
pub const SEED_USER_NAME: &'static str = "default_user";

/// Username of the account seeded for first use with the HR role.
pub const SEED_HR_NAME: &'static str = "default_hr";

/// Digest both seeded accounts start with; meant for setup only.
pub const SEED_DIGEST: &'static str = "$argon2id$v=19$m=65536,t=3,p=4$saKWfVlIpG7rMgG9fk4LYA$qYyHtS8jrIVQ3w4feR32r4t4G9FTSCV74k5r48+A+ISf0ZB7B1Ut5EWn2/L57uDTfXtqO98rJD/BD5jc+FE9mQ";

impl Database {
    /// The username-uniqueness invariant.
    pub open spec fn wf(&self) -> bool {
        distinct_keys(self@)
    }

    /// An empty store.
    pub fn new() -> (d: Self)
        ensures
            d@ == Seq::<AccountRec>::empty(),
            d.wf(),
    {
        let d = Database { data: Vec::new() };
        proof {
            assert(d@ =~= Seq::<AccountRec>::empty());
        }
        d
    }

    /// The index of the account stored under `username`, if any.
    fn find(&self, username: &str) -> (r: Option<usize>)
        ensures
            r matches Some(i) ==> i < self@.len() && lookup(self@, username@) == Some(
                self@[i as int],
            ) && key_of(self@[i as int]) == fold_seq(username@),
            r is None ==> lookup(self@, username@) is None,
    {
        let n = self.data.len();
        let mut i: usize = 0;
        while i < n
            invariant
                n == self@.len(),
                n == self.data@.len(),
                i <= n,
                forall|j: int| 0 <= j < i ==> key_of(#[trigger] self@[j]) != fold_seq(username@),
            decreases n - i,
        {
            if str_eq_fold(self.data[i].username(), username) {
                proof {
                    lemma_lookup_at(self@, fold_seq(username@), i as int);
                }
                return Some(i);
            }
            i = i + 1;
        }
        proof {
            lemma_lookup_membership(self@, fold_seq(username@));
        }
        None
    }

    /// The account stored under `username`, compared case-insensitively.
    pub fn get(&self, username: &str) -> (r: Option<UserAccount>)
        ensures
            r matches Some(acc) ==> lookup(self@, username@) == Some(acc@),
            r is None ==> lookup(self@, username@) is None,
    {
        match self.find(username) {
            Some(i) => Some(self.data[i].clone()),
            None => None,
        }
    }

    /// Stores `user` under its username: an existing record with that key is
    /// overwritten whole, otherwise the account is appended.  Every other key
    /// reads as before.
    pub fn insert(&mut self, user: &UserAccount)
        requires
            old(self).wf(),
        ensures
            final (self).wf(),
            lookup(final (self)@, user@.username) == Some(user@),
            forall|k: Seq<char>|
                !seq_eq_fold(k, user@.username) ==> lookup(final (self)@, k) == lookup(
                    old(self)@,
                    k,
                ),
            final (self)@.len() == old(self)@.len() + (if lookup(old(self)@, user@.username)
                is Some {
                0int
            } else {
                1int
            }),
            lookup(old(self)@, user@.username) is None ==> final (self)@ == old(self)@.push(
                user@,
            ),
    {
        let ghost pre = self@;
        match self.find(user.username()) {
            Some(i) => {
                self.data.set(i, user.clone());
                proof {
                    assert(self@ =~= pre.update(i as int, user@));
                    lemma_lookup_update(pre, i as int, user@, fold_seq(user@.username));
                    assert forall|k: Seq<char>| !seq_eq_fold(k, user@.username) implies lookup(
                        self@,
                        k,
                    ) == lookup(pre, k) by {
                        lemma_lookup_update(pre, i as int, user@, fold_seq(k));
                    }
                }
            },
            None => {
                proof {
                    lemma_lookup_membership(pre, fold_seq(user@.username));
                }
                self.data.push(user.clone());
                proof {
                    assert(self@ =~= pre.push(user@));
                    lemma_lookup_push(pre, user@, fold_seq(user@.username));
                    assert forall|k: Seq<char>| !seq_eq_fold(k, user@.username) implies lookup(
                        self@,
                        k,
                    ) == lookup(pre, k) by {
                        lemma_lookup_push(pre, user@, fold_seq(k));
                    }
                }
            },
        }
    }

    /// The redacted projection of every account, in store order: usernames and
    /// phone numbers only, never a digest.
    pub fn get_all_user_info(&self) -> (r: Vec<UserInfo>)
        ensures
            r@.len() == self@.len(),
            forall|i: int|
                0 <= i < r@.len() ==> (#[trigger] r@[i])@ == (InfoRec {
                    username: self@[i].username,
                    phone_number: self@[i].phone_number,
                }),
    {
        let n = self.data.len();
        let mut r: Vec<UserInfo> = Vec::new();
        let mut i: usize = 0;
        while i < n
            invariant
                n == self@.len(),
                n == self.data@.len(),
                i <= n,
                r@.len() == i,
                forall|j: int|
                    0 <= j < i ==> (#[trigger] r@[j])@ == (InfoRec {
                        username: self@[j].username,
                        phone_number: self@[j].phone_number,
                    }),
            decreases n - i,
        {
            r.push(self.data[i].to_info());
            i = i + 1;
        }
        r
    }
}

impl Database {
    /// Every stored account, in store order; the process boundary persists
    /// them outside this crate.
    pub fn export_accounts(&self) -> (r: Vec<UserAccount>)
        ensures
            r@.map_values(|a: UserAccount| a@) == self@,
    {
        let n = self.data.len();
        let mut r: Vec<UserAccount> = Vec::new();
        let mut i: usize = 0;
        while i < n
            invariant
                n == self@.len(),
                n == self.data@.len(),
                i <= n,
                r@.len() == i,
                forall|j: int| 0 <= j < i ==> (#[trigger] r@[j])@ == self@[j],
            decreases n - i,
        {
            r.push(self.data[i].clone());
            i = i + 1;
        }
        proof {
            assert(r@.map_values(|a: UserAccount| a@) =~= self@);
        }
        r
    }
}

impl Default for Database {
    /// The store a fresh service starts with: one standard account and one HR
    /// account, both seeded with `SEED_DIGEST`.
    fn default() -> (d: Self)
        ensures
            d.wf(),
            d@.len() == 2,
            d@[0] == (AccountRec {
                username: SEED_USER_NAME@,
                password: SEED_DIGEST@,
                phone_number: "0784539872"@,
                role: UserRole::StandardUser,
            }),
            d@[1] == (AccountRec {
                username: SEED_HR_NAME@,
                password: SEED_DIGEST@,
                phone_number: "0793175289"@,
                role: UserRole::HR,
            }),
    {
        let u1 = UserAccount::new(
            copy_str(SEED_USER_NAME),
            copy_str(SEED_DIGEST),
            copy_str("0784539872"),
            UserRole::StandardUser,
        );
        let u2 = UserAccount::new(
            copy_str(SEED_HR_NAME),
            copy_str(SEED_DIGEST),
            copy_str("0793175289"),
            UserRole::HR,
        );
        let mut data: Vec<UserAccount> = Vec::new();
        data.push(u1);
        data.push(u2);
        let d = Database { data };
        proof {
            assert(d@.len() == 2);
            if key_of(d@[0]) == key_of(d@[1]) {
                proof_seed_keys_differ();
            }
        }
        d
    }
}

/// The two seeded usernames fold to different keys.
proof fn proof_seed_keys_differ()
    ensures
        fold_seq(SEED_USER_NAME@) != fold_seq(SEED_HR_NAME@),
{
    reveal_strlit("default_user");
    reveal_strlit("default_hr");
    assert(SEED_USER_NAME@.len() == 12);
    assert(SEED_HR_NAME@.len() == 10);
    assert(fold_seq(SEED_USER_NAME@).len() != fold_seq(SEED_HR_NAME@).len());
}

} // verus!
