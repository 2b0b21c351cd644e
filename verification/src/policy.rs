//! The access policy: who may do what, decided from the identity assertion,
//! the capability an action requires, and what is known of the resource.

use vstd::prelude::*;
use crate::error::ApiError;
use crate::models::user::Claims;

verus! {

/// The label of the elevated privilege level.
pub const ADMIN_ROLE: &'static str = "admin";

/// The label of the standard privilege level.
pub const EDITOR_ROLE: &'static str = "editor";

/// The privilege level of an account.
#[derive(Clone, Copy, Debug, PartialEq, Eq, Structural)]
pub enum Role {
    /// May create content and edit its own.
    Standard,
    /// May do everything.
    Elevated,
}

/// What an action requires of the request that asks for it.
#[derive(Clone, Copy, Debug, PartialEq, Eq, Structural)]
pub enum Capability {
    /// Open to everyone.
    Public,
    /// Any valid assertion passes.
    Authenticated,
    /// A valid assertion that is elevated or owns the resource.
    EditContent,
    /// A valid assertion with elevated privilege.
    AdminOnly,
}

/// What a lookup found out about the resource an action targets.
#[derive(Clone, Copy, Debug, PartialEq, Eq, Structural)]
pub enum Resource {
    /// There is no such resource.
    Missing,
    /// It exists and no account owns it.
    Unowned,
    /// It exists and belongs to the account with this id.
    OwnedBy(i64),
}

/// The privilege level that a role label stands for: only the label of the
/// elevated level is elevated.
pub open spec fn role_of_label(label: Seq<char>) -> Role {
    if label == ADMIN_ROLE@ {
        Role::Elevated
    } else {
        Role::Standard
    }
}

/// The label under which a privilege level is stored and asserted.
pub open spec fn label_of_role(role: Role) -> Seq<char> {
    match role {
        Role::Elevated => ADMIN_ROLE@,
        Role::Standard => EDITOR_ROLE@,
    }
}

/// Whether the assertion carries elevated privilege.
pub open spec fn is_elevated(claims: &Claims) -> bool {
    role_of_label(claims.role@) == Role::Elevated
}

/// The policy itself. Public actions need nothing. Every other action needs
/// an assertion. Editing needs the resource to exist, and then elevated
/// privilege or ownership; an unowned resource is nobody's. Administration
/// needs elevated privilege.
pub open spec fn decision(
    assertion: Option<&Claims>,
    capability: Capability,
    resource: Resource,
) -> Result<(), ApiError> {
    match (capability, assertion) {
        (Capability::Public, _) => Ok(()),
        (_, None) => Err(ApiError::Unauthenticated),
        (Capability::Authenticated, Some(_)) => Ok(()),
        (Capability::AdminOnly, Some(claims)) => if is_elevated(claims) {
            Ok(())
        } else {
            Err(ApiError::Forbidden)
        },
        (Capability::EditContent, Some(claims)) => match resource {
            Resource::Missing => Err(ApiError::NotFound),
            Resource::Unowned => if is_elevated(claims) {
                Ok(())
            } else {
                Err(ApiError::Forbidden)
            },
            Resource::OwnedBy(owner) => if is_elevated(claims) || owner == claims.user_id {
                Ok(())
            } else {
                Err(ApiError::Forbidden)
            },
        },
    }
}

/// Whether two texts hold the same characters.
pub(crate) fn same_text(a: &str, b: &str) -> (r: bool)
    ensures
        r == (a@ == b@),
{
    a.to_owned() == b.to_owned()
}

/// The privilege level that a role label stands for.
pub fn role_of(label: &str) -> (r: Role)
    ensures
        r == role_of_label(label@),
{
    if same_text(label, ADMIN_ROLE) {
        Role::Elevated
    } else {
        Role::Standard
    }
}

/// The label under which a privilege level is stored and asserted.
pub fn role_label(role: Role) -> (r: &'static str)
    ensures
        r@ == label_of_role(role),
{
    match role {
        Role::Elevated => ADMIN_ROLE,
        Role::Standard => EDITOR_ROLE,
    }
}

/// Decides whether the action may go ahead. On success the assertion is
/// handed on to the operation; on failure nothing is.
pub fn authorize<'a>(
    assertion: Option<&'a Claims>,
    capability: Capability,
    resource: Resource,
) -> (r: Result<Option<&'a Claims>, ApiError>)
    ensures
        r == match decision(assertion, capability, resource) {
            Ok(_) => Ok::<Option<&Claims>, ApiError>(assertion),
            Err(e) => Err(e),
        },
{
    match capability {
        Capability::Public => Ok(assertion),
        _ => match assertion {
            None => Err(ApiError::Unauthenticated),
            Some(claims) => {
                let elevated = role_of(claims.role.as_str()) == Role::Elevated;
                let allowed = match capability {
                    Capability::Authenticated => true,
                    Capability::AdminOnly => elevated,
                    _ => match resource {
                        Resource::Missing => {
                            return Err(ApiError::NotFound);
                        },
                        Resource::Unowned => elevated,
                        Resource::OwnedBy(owner) => elevated || owner == claims.user_id,
                    },
                };
                if allowed {
                    Ok(assertion)
                } else {
                    Err(ApiError::Forbidden)
                }
            },
        },
    }
}

/// The two labels differ, so each privilege level is found again from its label.
pub proof fn lemma_role_label_round_trip(role: Role)
    ensures
        role_of_label(label_of_role(role)) == role,
{
    reveal_strlit("admin");
    reveal_strlit("editor");
    assert(ADMIN_ROLE@.len() != EDITOR_ROLE@.len());
}

/// The ownership boundary. On a resource that exists, an account without
/// elevated privilege that does not own it is refused with `Forbidden`;
/// the owner is let through, and so is anyone with elevated privilege,
/// whoever the owner is.
pub proof fn lemma_ownership_boundary(claims: &Claims, resource: Resource)
    requires
        resource != Resource::Missing,
    ensures
        !is_elevated(claims) && resource != Resource::OwnedBy(claims.user_id) ==> decision(
            Some(claims),
            Capability::EditContent,
            resource,
        ) == Err::<(), ApiError>(ApiError::Forbidden),
        resource == Resource::OwnedBy(claims.user_id) ==> decision(
            Some(claims),
            Capability::EditContent,
            resource,
        ) is Ok,
        is_elevated(claims) ==> decision(Some(claims), Capability::EditContent, resource) is Ok,
{
}

/// A target that does not exist is reported as such to every authenticated
/// caller: whether the caller could have edited it is never disclosed.
pub proof fn lemma_missing_before_forbidden(claims: &Claims)
    ensures
        decision(Some(claims), Capability::EditContent, Resource::Missing) == Err::<(), ApiError>(
            ApiError::NotFound,
        ),
{
}

/// Without an assertion only public actions pass; everything else is
/// `Unauthenticated`, whatever the resource.
pub proof fn lemma_no_assertion(capability: Capability, resource: Resource)
    ensures
        decision(None, capability, resource) == if capability == Capability::Public {
            Ok::<(), ApiError>(())
        } else {
            Err::<(), ApiError>(ApiError::Unauthenticated)
        },
{
}

} // verus!
