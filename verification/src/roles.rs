//! The closed set of actor roles and their textual labels.

use vstd::prelude::*;

verus! {

/// An actor role. Roles are compared for equality only: there is no
/// hierarchy, and no role implicitly acts as another.
#[derive(Clone, Copy, Debug, PartialEq, Eq, Structural)]
pub enum Roles {
    Admin,
    Customer,
    Partner,
}

/// The label under which a role travels inside a session token.
pub open spec fn spec_role_label(role: Roles) -> Seq<char> {
    match role {
        Roles::Admin => "Admin"@,
        Roles::Customer => "Customer"@,
        Roles::Partner => "Partner"@,
    }
}

/// The role a token label stands for, if any.
pub open spec fn spec_role_of_label(label: Seq<char>) -> Option<Roles> {
    if label == spec_role_label(Roles::Admin) {
        Some(Roles::Admin)
    } else if label == spec_role_label(Roles::Customer) {
        Some(Roles::Customer)
    } else if label == spec_role_label(Roles::Partner) {
        Some(Roles::Partner)
    } else {
        None
    }
}

impl Roles {
    /// The textual label of this role.
    pub fn label(&self) -> (r: &'static str)
        ensures
            r@ == spec_role_label(*self),
    {
        match self {
            Roles::Admin => "Admin",
            Roles::Customer => "Customer",
            Roles::Partner => "Partner",
        }
    }

    /// Parses a textual label back into a role.
    pub fn from_label(label: &str) -> (r: Option<Roles>)
        ensures
            r == spec_role_of_label(label@),
    {
        let owned = label.to_owned();
        if owned == Roles::Admin.label().to_owned() {
            Some(Roles::Admin)
        } else if owned == Roles::Customer.label().to_owned() {
            Some(Roles::Customer)
        } else if owned == Roles::Partner.label().to_owned() {
            Some(Roles::Partner)
        } else {
            None
        }
    }
}

/// Every role's label parses back to that role: the three labels are
/// pairwise distinct and `spec_role_of_label` inverts `spec_role_label`.
pub proof fn lemma_role_label_round_trip(role: Roles)
    ensures
        spec_role_of_label(spec_role_label(role)) == Some(role),
{
    reveal_strlit("Admin");
    reveal_strlit("Customer");
    reveal_strlit("Partner");
    assert("Admin"@.len() == 5);
    assert("Customer"@.len() == 8);
    assert("Partner"@.len() == 7);
}

} // verus!
