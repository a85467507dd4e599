//! The authorization gate: who may change a post.
use crate::model::{DatabaseError, Text};
use crate::utility::{digest_of, hash};
use vstd::prelude::*;

verus! {

/// A capability that a permission group may hold.
#[derive(Debug, Clone, Copy, PartialEq, Eq, Structural)]
pub enum Permission {
    /// May manage the server and its managers.
    Admin,
    /// May manage the server and what it holds. This is the elevated capability that
    /// opens every post.
    Manager,
    /// May do small moderator tasks.
    Helper,
}

/// A delegated identity: an authenticated actor, known by what the authorization gate reads of it.
#[derive(Debug, PartialEq, Eq)]
pub struct Identity {
    /// The identifier under which the actor's actions are recorded.
    pub id: String,
    /// The permission group of the actor.
    pub group: i32,
}

/// An [`Identity`] as contracts see it.
#[verifier::ext_equal]
pub struct IdentityView {
    pub id: Text,
    pub group: i32,
}

impl View for Identity {
    type V = IdentityView;

    open spec fn view(&self) -> IdentityView {
        IdentityView { id: self.id@, group: self.group }
    }
}

impl Clone for Identity {
    fn clone(&self) -> (r: Self)
        ensures
            r@ == self@,
    {
        Identity { id: self.id.clone(), group: self.group }
    }
}

/// What the authorization gate decides.
#[derive(Debug, Clone, Copy, PartialEq, Eq, Structural)]
pub enum Access {
    /// The change may proceed. Where `audit` holds, it must first be recorded in the audit
    /// trail, and does not proceed if that fails.
    Granted { audit: bool },
    /// The change is refused, with the error to report.
    Denied(DatabaseError),
}

/// Whether a group's permissions hold the elevated capability.
pub open spec fn is_manager(permissions: Seq<Permission>) -> bool {
    permissions.contains(Permission::Manager)
}

/// The decision of the authorization gate for a caller whose password has the digest
/// `digest`. The two paths exclude each other. With a delegated identity, only the
/// permissions of its group count, and a grant is to be audited; the password is not looked
/// at, whether it matches or not. Without one, only the password counts: its digest must be
/// the stored one.
pub open spec fn access_by(stored: Text, digest: Text, delegate: Option<Seq<Permission>>) -> Access {
    match delegate {
        Some(permissions) => if is_manager(permissions) {
            Access::Granted { audit: true }
        } else {
            Access::Denied(DatabaseError::NotAllowed)
        },
        None => if digest == stored {
            Access::Granted { audit: false }
        } else {
            Access::Denied(DatabaseError::PasswordIncorrect)
        },
    }
}

/// The decision of the authorization gate for a caller who supplies the password
/// `supplied`.
pub open spec fn access(stored: Text, supplied: Text, delegate: Option<Seq<Permission>>) -> Access {
    access_by(stored, digest_of(supplied), delegate)
}

/// A group's permissions, where there is a group, as contracts see them.
pub open spec fn delegate_view(delegate: Option<&Vec<Permission>>) -> Option<Seq<Permission>> {
    match delegate {
        Some(permissions) => Some(permissions@),
        None => None,
    }
}

/// Whether `permissions` hold the elevated capability.
pub fn holds_manager(permissions: &Vec<Permission>) -> (r: bool)
    ensures
        r == is_manager(permissions@),
{
    let mut i: usize = 0;
    while i < permissions.len()
        invariant
            i <= permissions.len(),
            forall|j: int| 0 <= j < i ==> permissions@[j] != Permission::Manager,
        decreases permissions.len() - i,
    {
        if permissions[i] == Permission::Manager {
            return true;
        }
        i = i + 1;
    }
    false
}

/// Decides whether a post whose stored password digest is `stored` may be changed by a
/// caller whose password has the digest `digest` and, where the caller acts under a
/// delegated identity, whose group holds `delegate`.
pub fn decide(stored: &str, digest: &str, delegate: Option<&Vec<Permission>>) -> (r: Access)
    ensures
        r == access_by(stored@, digest@, delegate_view(delegate)),
{
    match delegate {
        Some(permissions) => {
            if holds_manager(permissions) {
                Access::Granted { audit: true }
            } else {
                Access::Denied(DatabaseError::NotAllowed)
            }
        },
        None => {
            if String::from_str(digest) == String::from_str(stored) {
                Access::Granted { audit: false }
            } else {
                Access::Denied(DatabaseError::PasswordIncorrect)
            }
        },
    }
}

/// Decides whether a post whose stored password digest is `stored` may be changed by a
/// caller who supplies `supplied` as the edit password and, where the caller acts under a
/// delegated identity, whose group holds `delegate`.
pub fn authorize(stored: &str, supplied: &str, delegate: Option<&Vec<Permission>>) -> (r: Access)
    ensures
        r == access(stored@, supplied@, delegate_view(delegate)),
{
    match delegate {
        Some(_) => decide(stored, "", delegate),
        None => {
            let digest = hash(supplied);
            decide(stored, digest.as_str(), None)
        },
    }
}

} // verus!
