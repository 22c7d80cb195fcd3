//! The policy gate: an immutable table of allow entries.  A query that no
//! entry covers is denied.

use vstd::prelude::*;
use crate::user::UserRole;
use crate::text::str_eq;

verus! {

/// Who asks for an action: the anonymous session, or a session authenticated
/// under some role.
#[derive(Clone, Copy, PartialEq, Eq, Structural, Debug)]
pub enum Subject {
    Anonymous,
    Known(UserRole),
}

/// The gated resources, one per gated action.
#[derive(Clone, Copy, PartialEq, Eq, Structural, Debug)]
pub enum Resource {
    ShowUsers,
    ChangeOwnPhone,
    ChangePhone,
    AddUser,
}

/// One allow entry: the pair (subject, resource) is permitted.
#[derive(Clone, Copy, PartialEq, Eq, Structural, Debug)]
pub struct PolicyRule {
    pub subject: Subject,
    pub resource: Resource,
}

/// A pair is allowed exactly when some rule lists it.
pub open spec fn allows(rules: Seq<PolicyRule>, subject: Subject, resource: Resource) -> bool {
    exists|i: int|
        0 <= i < rules.len() && (#[trigger] rules[i]).subject == subject && rules[i].resource
            == resource
}

/// The rule table the service starts with: everyone may list users, every
/// authenticated account may change its own phone number, and only the HR
/// role may change another account's phone number or add accounts.
pub open spec fn default_rules() -> Seq<PolicyRule> {
    seq![
        PolicyRule { subject: Subject::Anonymous, resource: Resource::ShowUsers },
        PolicyRule { subject: Subject::Known(UserRole::StandardUser), resource: Resource::ShowUsers },
        PolicyRule { subject: Subject::Known(UserRole::HR), resource: Resource::ShowUsers },
        PolicyRule {
            subject: Subject::Known(UserRole::StandardUser),
            resource: Resource::ChangeOwnPhone,
        },
        PolicyRule { subject: Subject::Known(UserRole::HR), resource: Resource::ChangeOwnPhone },
        PolicyRule { subject: Subject::Known(UserRole::HR), resource: Resource::ChangePhone },
        PolicyRule { subject: Subject::Known(UserRole::HR), resource: Resource::AddUser },
    ]
}

/// The subject a configuration entry names.
pub open spec fn parse_subject(s: Seq<char>) -> Option<Subject> {
    if s == "anonymous"@ {
        Some(Subject::Anonymous)
    } else if s == "StandardUser"@ {
        Some(Subject::Known(UserRole::StandardUser))
    } else if s == "HR"@ {
        Some(Subject::Known(UserRole::HR))
    } else {
        None
    }
}

/// The resource a configuration entry names.
pub open spec fn parse_resource(s: Seq<char>) -> Option<Resource> {
    if s == "showUsers"@ {
        Some(Resource::ShowUsers)
    } else if s == "changeOwnPhone"@ {
        Some(Resource::ChangeOwnPhone)
    } else if s == "changePhone"@ {
        Some(Resource::ChangePhone)
    } else if s == "addUser"@ {
        Some(Resource::AddUser)
    } else {
        None
    }
}

/// The immutable rule table, loaded once at startup and only read afterwards.
pub struct PolicyTable {
    rules: Vec<PolicyRule>,
}

impl View for PolicyTable {
    type V = Seq<PolicyRule>;

    closed spec fn view(&self) -> Seq<PolicyRule> {
        self.rules@
    }
}

impl PolicyTable {
    /// A table holding exactly the given rules.
    pub fn new(rules: Vec<PolicyRule>) -> (t: Self)
        ensures
            t@ == rules@,
    {
        PolicyTable { rules }
    }

    /// The table of `default_rules`.
    pub fn with_default_rules() -> (t: Self)
        ensures
            t@ == default_rules(),
    {
        let mut rules: Vec<PolicyRule> = Vec::new();
        rules.push(PolicyRule { subject: Subject::Anonymous, resource: Resource::ShowUsers });
        rules.push(
            PolicyRule {
                subject: Subject::Known(UserRole::StandardUser),
                resource: Resource::ShowUsers,
            },
        );
        rules.push(PolicyRule { subject: Subject::Known(UserRole::HR), resource: Resource::ShowUsers });
        rules.push(
            PolicyRule {
                subject: Subject::Known(UserRole::StandardUser),
                resource: Resource::ChangeOwnPhone,
            },
        );
        rules.push(
            PolicyRule { subject: Subject::Known(UserRole::HR), resource: Resource::ChangeOwnPhone },
        );
        rules.push(
            PolicyRule { subject: Subject::Known(UserRole::HR), resource: Resource::ChangePhone },
        );
        rules.push(PolicyRule { subject: Subject::Known(UserRole::HR), resource: Resource::AddUser });
        proof {
            assert(rules@ =~= default_rules());
        }
        PolicyTable { rules }
    }

    /// Parses one configuration entry.  Subjects are named `anonymous`,
    /// `StandardUser` and `HR`; resources carry the gated actions' names.
    /// Anything else is malformed and yields no rule.
    pub fn rule_from_names(subject: &str, resource: &str) -> (r: Option<PolicyRule>)
        ensures
            r == (match (parse_subject(subject@), parse_resource(resource@)) {
                (Some(s), Some(res)) => Some(PolicyRule { subject: s, resource: res }),
                _ => None::<PolicyRule>,
            }),
    {
        let s = if str_eq(subject, "anonymous") {
            Some(Subject::Anonymous)
        } else if str_eq(subject, "StandardUser") {
            Some(Subject::Known(UserRole::StandardUser))
        } else if str_eq(subject, "HR") {
            Some(Subject::Known(UserRole::HR))
        } else {
            None
        };
        let res = if str_eq(resource, "showUsers") {
            Some(Resource::ShowUsers)
        } else if str_eq(resource, "changeOwnPhone") {
            Some(Resource::ChangeOwnPhone)
        } else if str_eq(resource, "changePhone") {
            Some(Resource::ChangePhone)
        } else if str_eq(resource, "addUser") {
            Some(Resource::AddUser)
        } else {
            None
        };
        match (s, res) {
            (Some(s), Some(res)) => Some(PolicyRule { subject: s, resource: res }),
            _ => None,
        }
    }

    /// Decides `allows`: deterministic, and a pair outside the table is
    /// denied.
    pub fn evaluate(&self, subject: Subject, resource: Resource) -> (r: bool)
        ensures
            r == allows(self@, subject, resource),
    {
        let n = self.rules.len();
        let mut i: usize = 0;
        while i < n
            invariant
                n == self@.len(),
                i <= n,
                forall|j: int|
                    0 <= j < i ==> !((#[trigger] self@[j]).subject == subject && self@[j].resource
                        == resource),
            decreases n - i,
        {
            let rule = self.rules[i];
            if rule.subject == subject && rule.resource == resource {
                return true;
            }
            i = i + 1;
        }
        false
    }
}

} // verus!
