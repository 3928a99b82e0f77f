//! Roles and the directory's view of a user.

use vstd::prelude::*;

verus! {

/// A role that a user may hold. Roles are not hierarchical: none implies
/// another.
#[derive(Debug, Clone, Copy, PartialEq, Eq, Structural)]
pub enum Role {
    Viewer,
    Operator,
    Admin,
}

impl Role {
    /// The role's name, as it is recorded and serialised.
    pub open spec fn spec_name(self) -> Seq<char> {
        match self {
            Role::Viewer => "Viewer"@,
            Role::Operator => "Operator"@,
            Role::Admin => "Admin"@,
        }
    }

    /// The role's name, as it is recorded and serialised.
    pub fn name(self) -> (name: &'static str)
        ensures
            name@ == self.spec_name(),
    {
        match self {
            Role::Viewer => "Viewer",
            Role::Operator => "Operator",
            Role::Admin => "Admin",
        }
    }
}

/// What the directory holds of a user.
#[derive(Debug, Clone)]
pub struct User {
    pub id: String,
    pub roles: Vec<Role>,
    pub active: bool,
}

/// A user as contracts see it.
pub struct UserView {
    pub id: Seq<char>,
    pub roles: Seq<Role>,
    pub active: bool,
}

impl View for User {
    type V = UserView;

    open spec fn view(&self) -> UserView {
        UserView { id: self.id@, roles: self.roles@, active: self.active }
    }
}

impl User {
    /// Whether the user holds exactly this role.
    pub fn has_role(&self, role: Role) -> (held: bool)
        ensures
            held == self@.roles.contains(role),
    {
        let mut i: usize = 0;
        while i < self.roles.len()
            invariant
                i <= self.roles@.len(),
                forall|j: int| 0 <= j < i ==> self.roles@[j] != role,
            decreases self.roles@.len() - i,
        {
            if self.roles[i] == role {
                return true;
            }
            i += 1;
        }
        false
    }
}

} // verus!
