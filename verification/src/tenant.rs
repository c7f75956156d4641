//! Tenants and their resolution by domain.

use vstd::prelude::*;
use vstd::string::*;

verus! {

/// An organizational unit, known by the domain of its e-mail addresses.
#[derive(Debug, PartialEq, Eq)]
pub struct Tenant {
    pub id: i32,
    pub name: String,
    pub domain: String,
}

/// Mathematical value of a [`Tenant`].
pub struct TenantView {
    pub id: int,
    pub name: Seq<char>,
    pub domain: Seq<char>,
}

impl View for Tenant {
    type V = TenantView;

    open spec fn view(&self) -> TenantView {
        TenantView { id: self.id as int, name: self.name@, domain: self.domain@ }
    }
}

impl Clone for Tenant {
    fn clone(&self) -> (copy: Self)
        ensures
            copy == *self,
    {
        Tenant { id: self.id, name: self.name.clone(), domain: self.domain.clone() }
    }
}

/// A tenant as a mathematical value, where there is one.
pub open spec fn tenant_view(tenant: Option<Tenant>) -> Option<TenantView> {
    match tenant {
        Some(t) => Some(t@),
        None => None,
    }
}

/// The known tenants. Tenants are looked up here and never created.
#[derive(Debug, PartialEq, Eq)]
pub struct TenantDirectory {
    pub tenants: Vec<Tenant>,
}

impl View for TenantDirectory {
    type V = Seq<TenantView>;

    open spec fn view(&self) -> Seq<TenantView> {
        Seq::new(self.tenants@.len(), |i: int| self.tenants@[i]@)
    }
}

/// The first tenant at or after position `from` whose domain is exactly
/// `identifier`.
pub open spec fn first_match(tenants: Seq<TenantView>, identifier: Seq<char>, from: int) -> Option<
    TenantView,
>
    decreases tenants.len() - from,
{
    if from < 0 || from >= tenants.len() {
        None
    } else if tenants[from].domain == identifier {
        Some(tenants[from])
    } else {
        first_match(tenants, identifier, from + 1)
    }
}

/// The tenant that `identifier` names: the first whose domain equals it
/// character for character. The empty identifier names no tenant.
pub open spec fn resolved(tenants: Seq<TenantView>, identifier: Seq<char>) -> Option<TenantView> {
    if identifier.len() == 0 {
        None
    } else {
        first_match(tenants, identifier, 0)
    }
}

/// What `first_match` finds is a tenant of the directory with the wanted
/// domain, and it finds one whenever there is one.
pub proof fn lemma_first_match(tenants: Seq<TenantView>, identifier: Seq<char>, from: int)
    requires
        0 <= from <= tenants.len(),
    ensures
        match first_match(tenants, identifier, from) {
            Some(t) => t.domain == identifier && exists|i: int|
                from <= i < tenants.len() && tenants[i] == t,
            None => forall|i: int| from <= i < tenants.len() ==> tenants[i].domain != identifier,
        },
    decreases tenants.len() - from,
{
    if from < tenants.len() && tenants[from].domain != identifier {
        lemma_first_match(tenants, identifier, from + 1);
    }
}

/// Resolution is an exact match: a tenant is found only under its own
/// domain, and an identifier that no tenant has as its domain finds none.
pub proof fn lemma_resolved_is_exact(tenants: Seq<TenantView>, identifier: Seq<char>)
    ensures
        match resolved(tenants, identifier) {
            Some(t) => t.domain == identifier && identifier.len() > 0 && tenants.contains(t),
            None => identifier.len() == 0 || forall|i: int|
                0 <= i < tenants.len() ==> tenants[i].domain != identifier,
        },
{
    lemma_first_match(tenants, identifier, 0);
}

impl TenantDirectory {
    /// A directory of the given tenants.
    pub fn new(tenants: Vec<Tenant>) -> (directory: TenantDirectory)
        ensures
            directory.tenants == tenants,
    {
        TenantDirectory { tenants }
    }

    /// Resolves an identifier, typically the domain of an e-mail address,
    /// to a tenant.
    pub fn resolve(&self, identifier: &str) -> (found: Option<Tenant>)
        ensures
            tenant_view(found) == resolved(self@, identifier@),
    {
        if identifier.unicode_len() == 0 {
            return None;
        }
        let wanted = String::from_str(identifier);
        let mut i: usize = 0;
        while i < self.tenants.len()
            invariant
                i <= self.tenants.len(),
                wanted@ == identifier@,
                identifier@.len() > 0,
                first_match(self@, identifier@, 0) == first_match(self@, identifier@, i as int),
            decreases self.tenants.len() - i,
        {
            if self.tenants[i].domain == wanted {
                return Some(self.tenants[i].clone());
            }
            i = i + 1;
        }
        None
    }
}

} // verus!
