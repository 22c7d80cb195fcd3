//! Laws relating the gates and the store across several calls.  Each proof
//! function states one such law over the spec functions the handlers'
//! contracts use.

use vstd::prelude::*;
use crate::action::{front_texts2, gate_add_user, gate_change_phone, login_post, SessionV};
use crate::channel::{DomainError, Termination};
use crate::database::{distinct_keys, lemma_lookup_after_push, lemma_lookup_index, lookup,
projections_of};
use crate::policy::{allows, PolicyRule, Resource, Subject};
use crate::text::seq_eq_fold;
use crate::user::AccountRec;

verus! {

/// No entry, no allowance: `allows` refuses every pair the rules do not
/// list, and its result depends on the rules and the pair alone.
pub proof fn lemma_policy_denies_unlisted_pairs(
    rules: Seq<PolicyRule>,
    subject: Subject,
    resource: Resource,
)
    requires
        forall|i: int|
            0 <= i < rules.len() ==> !((#[trigger] rules[i]).subject == subject
                && rules[i].resource == resource),
    ensures
        !allows(rules, subject, resource),
{
}

/// A login attempt on an anonymous session, with both its parameters
/// present, costs exactly one verification — whether or not the username
/// resolves, and whatever the verification returns.
pub proof fn lemma_login_verifies_once(
    pre: SessionV,
    db: Seq<AccountRec>,
    pre_calls: u64,
    post: SessionV,
    post_calls: u64,
    r: Result<(), Termination>,
)
    requires
        login_post(pre, db, pre_calls, post, post_calls, r),
        front_texts2(pre.conn) is Some,
        pre.identity is None,
    ensures
        post_calls == pre_calls + 1,
{
}

/// The listing depends on no digest: two stores that agree on usernames and
/// phone numbers project identically, whatever digests they hold.
pub proof fn lemma_projection_ignores_digests(a: Seq<AccountRec>, b: Seq<AccountRec>)
    requires
        a.len() == b.len(),
        forall|i: int|
            0 <= i < a.len() ==> (#[trigger] a[i]).username == b[i].username
                && a[i].phone_number == b[i].phone_number,
    ensures
        projections_of(a) == projections_of(b),
{
    assert(projections_of(a) =~= projections_of(b));
}

/// Once a creation stored `rec`, a later creation under the same username —
/// in any letter case, with any other inputs — decides `UserExists` whenever
/// it passes the authentication and authorization gates, and never `Ok`; the
/// stored record still reads back unchanged.  With `add_user_post`, which
/// keeps the store whole on every failed decision, a stored record is never
/// overwritten by a later creation.
pub proof fn lemma_repeated_add_user_conflicts(
    policy: Seq<PolicyRule>,
    db: Seq<AccountRec>,
    rec: AccountRec,
    subject: Subject,
    name2: Seq<char>,
    password2: Seq<char>,
    phone2: Seq<char>,
)
    requires
        distinct_keys(db),
        lookup(db, rec.username) is None,
        seq_eq_fold(name2, rec.username),
    ensures
        gate_add_user(policy, db.push(rec), subject, name2, password2, phone2) != Ok::<
            (),
            DomainError,
        >(()),
        !(subject is Anonymous) && allows(policy, subject, Resource::AddUser)
            ==> gate_add_user(policy, db.push(rec), subject, name2, password2, phone2) == Err::<
            (),
            DomainError,
        >(DomainError::UserExists),
        lookup(db.push(rec), name2) == Some(rec),
{
    lemma_lookup_after_push(db, rec, name2);
}

/// After a phone change took effect for `target`, the store reads back
/// exactly the new number: `get` returns the rewritten record, not the old
/// one, and the listing projects the new number.
pub proof fn lemma_new_phone_read_back(
    pre_db: Seq<AccountRec>,
    post_db: Seq<AccountRec>,
    target: Seq<char>,
    phone: Seq<char>,
)
    requires
        lookup(pre_db, target) is Some,
        lookup(post_db, target) == Some(
            (AccountRec { phone_number: phone, ..lookup(pre_db, target)->0 }),
        ),
    ensures
        lookup(post_db, target)->0.phone_number == phone,
        lookup(pre_db, target)->0.phone_number != phone ==> lookup(post_db, target) != lookup(
            pre_db,
            target,
        ),
        exists|i: int|
            0 <= i < projections_of(post_db).len() && (#[trigger] projections_of(post_db)[i])
                == (crate::user::InfoRec {
                username: lookup(post_db, target)->0.username,
                phone_number: phone,
            }),
{
    lemma_lookup_index(post_db, target);
    let i = choose|i: int| 0 <= i < post_db.len() && post_db[i] == lookup(post_db, target)->0;
    assert(projections_of(post_db)[i] == (crate::user::InfoRec {
        username: lookup(post_db, target)->0.username,
        phone_number: phone,
    }));
}

/// The phone-change gate answers `Unauthenticated` or `Forbidden` without
/// consulting the store: an anonymous or unauthorized caller gets the same
/// decision whatever accounts exist, so a missing target reveals nothing to
/// them.
pub proof fn lemma_change_phone_gate_before_lookup(
    policy: Seq<PolicyRule>,
    db: Seq<AccountRec>,
    subject: Subject,
    target: Seq<char>,
    phone: Seq<char>,
)
    requires
        subject is Anonymous || !allows(policy, subject, Resource::ChangePhone),
    ensures
        gate_change_phone(policy, db, subject, target, phone) == (if subject is Anonymous {
            Err::<(), DomainError>(DomainError::Unauthenticated)
        } else {
            Err::<(), DomainError>(DomainError::Forbidden)
        }),
        forall|db2: Seq<AccountRec>|
            (#[trigger] gate_change_phone(policy, db2, subject, target, phone))
                == gate_change_phone(policy, db, subject, target, phone),
{
}

} // verus!
