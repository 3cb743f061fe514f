use vstd::prelude::*;

use crate::text::str_eq;

verus! {

/// What a user may do with a topic.
#[derive(Clone, Copy, Debug, PartialEq, Eq, Structural)]
pub enum Permission {
    Moderate,
    Edit,
    Read,
    Denied,
}

impl Permission {
    /// Reading is allowed unless access is denied.
    pub open spec fn spec_can_read(self) -> bool {
        !(self is Denied)
    }

    /// Writing is allowed to moderators and editors.
    pub open spec fn spec_can_write(self) -> bool {
        self is Moderate || self is Edit
    }

    pub fn can_read(&self) -> (r: bool)
        ensures
            r == self.spec_can_read(),
    {
        match self {
            Permission::Denied => false,
            _ => true,
        }
    }

    pub fn can_write(&self) -> (r: bool)
        ensures
            r == self.spec_can_write(),
    {
        match self {
            Permission::Moderate | Permission::Edit => true,
            _ => false,
        }
    }

    /// The permission named by a `permission` column of the session store:
    /// `MODERATE`, `EDIT` or `READ`; any other text names none.
    pub open spec fn spec_from_name(name: Seq<char>) -> Option<Permission> {
        if name == "MODERATE"@ {
            Some(Permission::Moderate)
        } else if name == "EDIT"@ {
            Some(Permission::Edit)
        } else if name == "READ"@ {
            Some(Permission::Read)
        } else {
            None
        }
    }

    pub fn from_name(name: &str) -> (p: Option<Permission>)
        ensures
            p == Permission::spec_from_name(name@),
    {
        if str_eq(name, "MODERATE") {
            Some(Permission::Moderate)
        } else if str_eq(name, "EDIT") {
            Some(Permission::Edit)
        } else if str_eq(name, "READ") {
            Some(Permission::Read)
        } else {
            None
        }
    }
}

/// The permission given by the permission row found for a user (if any):
/// without a row, access is denied.
pub open spec fn permission_or_denied(found: Option<Permission>) -> Permission {
    match found {
        Some(q) => q,
        None => Permission::Denied,
    }
}

/// The permission of a user on a topic, given the permission row found for
/// them (if any).
pub fn query_topic_permission(found: Option<Permission>) -> (p: Permission)
    ensures
        p == permission_or_denied(found),
{
    match found {
        Some(q) => q,
        None => Permission::Denied,
    }
}

/// Whoever may write may also read.
pub proof fn lemma_write_implies_read(p: Permission)
    ensures
        p.spec_can_write() ==> p.spec_can_read(),
{
}

/// A found permission row decides the permission unchanged; only a missing
/// row denies access.  In particular a reader may read and an editor or
/// moderator may write.
pub proof fn lemma_found_row_decides(p: Permission)
    ensures
        permission_or_denied(Some(p)) == p,
        permission_or_denied(None) == Permission::Denied,
        p == Permission::Read ==> permission_or_denied(Some(p)).spec_can_read(),
        (p == Permission::Edit || p == Permission::Moderate) ==> permission_or_denied(
            Some(p),
        ).spec_can_write(),
{
}

/// Without a permission row a user can neither read nor write.
pub proof fn lemma_no_row_no_access()
    ensures
        !permission_or_denied(None).spec_can_read(),
        !permission_or_denied(None).spec_can_write(),
{
}

/// What each permission allows: moderators and editors read and write,
/// readers only read, and a denied user does neither; only `MODERATE`,
/// `EDIT` and `READ` name a permission, and no name denies.
pub proof fn lemma_permission_table(p: Permission, name: Seq<char>)
    ensures
        (p == Permission::Moderate || p == Permission::Edit) ==> p.spec_can_read()
            && p.spec_can_write(),
        p == Permission::Read ==> p.spec_can_read() && !p.spec_can_write(),
        p == Permission::Denied ==> !p.spec_can_read() && !p.spec_can_write(),
        Permission::spec_from_name(name) != Some(Permission::Denied),
        Permission::spec_from_name(name) is Some ==> (name == "MODERATE"@ || name == "EDIT"@
            || name == "READ"@),
{
}

} // verus!
