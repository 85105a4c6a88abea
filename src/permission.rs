use vstd::prelude::*;

verus! {

/// A named capability that a caller may hold.
#[derive(Clone, Copy, Debug, PartialEq, Eq, Structural)]
pub enum Permission {
    TenantCreate,
    DomainCreate,
    IndividualCreate,
}

/// The first of the capabilities needed to provision an organization, in the
/// order tenant, domain, individual, that `granted` does not hold.
pub open spec fn first_denied(granted: Seq<Permission>) -> Option<Permission> {
    if !granted.contains(Permission::TenantCreate) {
        Some(Permission::TenantCreate)
    } else if !granted.contains(Permission::DomainCreate) {
        Some(Permission::DomainCreate)
    } else if !granted.contains(Permission::IndividualCreate) {
        Some(Permission::IndividualCreate)
    } else {
        None
    }
}

/// Whether `granted` holds the capability `wanted`.
pub fn holds(granted: &Vec<Permission>, wanted: Permission) -> (r: bool)
    ensures
        r == granted@.contains(wanted),
{
    let mut i: usize = 0;
    while i < granted.len()
        invariant
            i <= granted@.len(),
            forall|j: int| 0 <= j < i ==> granted@[j] != wanted,
        decreases granted@.len() - i,
    {
        if granted[i] == wanted {
            assert(granted@[i as int] == wanted);
            return true;
        }
        i = i + 1;
    }
    false
}

/// Checks, in a fixed order and stopping at the first failure, that the caller
/// holds every capability that provisioning an organization needs; the error
/// names the capability that is missing.
pub fn authorize(granted: &Vec<Permission>) -> (r: Result<(), Permission>)
    ensures
        r == (match first_denied(granted@) {
            Some(p) => Err(p),
            None => Ok(()),
        }),
{
    if !holds(granted, Permission::TenantCreate) {
        return Err(Permission::TenantCreate);
    }
    if !holds(granted, Permission::DomainCreate) {
        return Err(Permission::DomainCreate);
    }
    if !holds(granted, Permission::IndividualCreate) {
        return Err(Permission::IndividualCreate);
    }
    Ok(())
}

} // verus!
