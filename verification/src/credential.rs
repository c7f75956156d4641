//! The canonical credential and its natural key.

use vstd::prelude::*;
use vstd::string::*;

verus! {

/// The organization that owns every credential the gateway collects,
/// whichever tenant authenticated.
pub const MANAGING_ORGANIZATION: i32 = 1;

/// A provider's token in canonical shape, scoped to one tenant.
#[derive(Debug, PartialEq, Eq)]
pub struct Credential {
    /// Canonical short name of the provider.
    pub product: String,
    /// The tenant that the credential belongs to.
    pub tenant_id: i32,
    /// Kind of token; tells apart several credentials of one provider.
    pub token_type: String,
    pub access_token: String,
    /// Empty where the provider issues none.
    pub refresh_token: String,
    /// Lifetime of the access token in seconds; not positive where the
    /// provider states none.
    pub expires_in: i32,
    /// Lifetime of the refresh token in seconds; not positive where the
    /// provider states none.
    pub refresh_expires_in: i32,
    /// Instant at which the access token expires, if it does.
    pub expires_at: Option<i64>,
    /// Instant at which the refresh token expires, if it does.
    pub refresh_expires_at: Option<i64>,
    /// Base URL or webhook target that the provider gave.
    pub endpoint: String,
    /// The provider's own identifier of the account.
    pub external_account_id: String,
    /// The provider's own name of the account.
    pub external_account_name: String,
    pub user_email: String,
    /// Instant at which the credential was normalized.
    pub last_updated_at: i64,
    /// Always [`MANAGING_ORGANIZATION`].
    pub managing_organization: i32,
}

/// Mathematical value of a [`Credential`].
pub struct CredentialView {
    pub product: Seq<char>,
    pub tenant_id: int,
    pub token_type: Seq<char>,
    pub access_token: Seq<char>,
    pub refresh_token: Seq<char>,
    pub expires_in: int,
    pub refresh_expires_in: int,
    pub expires_at: Option<int>,
    pub refresh_expires_at: Option<int>,
    pub endpoint: Seq<char>,
    pub external_account_id: Seq<char>,
    pub external_account_name: Seq<char>,
    pub user_email: Seq<char>,
    pub last_updated_at: int,
    pub managing_organization: int,
}

/// The natural key of a credential: at most one row is kept per key.
pub struct CredentialKey {
    pub managing_organization: int,
    pub product: Seq<char>,
    pub tenant_id: int,
    pub token_type: Seq<char>,
}

impl CredentialView {
    /// The key under which the credential is stored.
    pub open spec fn key(self) -> CredentialKey {
        CredentialKey {
            managing_organization: self.managing_organization,
            product: self.product,
            tenant_id: self.tenant_id,
            token_type: self.token_type,
        }
    }
}

/// An instant as a mathematical value, where there is one.
pub open spec fn instant_view(instant: Option<i64>) -> Option<int> {
    match instant {
        Some(t) => Some(t as int),
        None => None,
    }
}

impl View for Credential {
    type V = CredentialView;

    open spec fn view(&self) -> CredentialView {
        CredentialView {
            product: self.product@,
            tenant_id: self.tenant_id as int,
            token_type: self.token_type@,
            access_token: self.access_token@,
            refresh_token: self.refresh_token@,
            expires_in: self.expires_in as int,
            refresh_expires_in: self.refresh_expires_in as int,
            expires_at: instant_view(self.expires_at),
            refresh_expires_at: instant_view(self.refresh_expires_at),
            endpoint: self.endpoint@,
            external_account_id: self.external_account_id@,
            external_account_name: self.external_account_name@,
            user_email: self.user_email@,
            last_updated_at: self.last_updated_at as int,
            managing_organization: self.managing_organization as int,
        }
    }
}

impl Clone for Credential {
    fn clone(&self) -> (copy: Self)
        ensures
            copy == *self,
    {
        Credential {
            product: self.product.clone(),
            tenant_id: self.tenant_id,
            token_type: self.token_type.clone(),
            access_token: self.access_token.clone(),
            refresh_token: self.refresh_token.clone(),
            expires_in: self.expires_in,
            refresh_expires_in: self.refresh_expires_in,
            expires_at: self.expires_at,
            refresh_expires_at: self.refresh_expires_at,
            endpoint: self.endpoint.clone(),
            external_account_id: self.external_account_id.clone(),
            external_account_name: self.external_account_name.clone(),
            user_email: self.user_email.clone(),
            last_updated_at: self.last_updated_at,
            managing_organization: self.managing_organization,
        }
    }
}

/// The instant at which a token issued at `issued_at` with a lifetime of
/// `lifetime` seconds expires. A lifetime that is not positive means that
/// the token does not expire, and so does an instant beyond the range of
/// `i64`.
pub open spec fn expiry_of(issued_at: int, lifetime: int) -> Option<int> {
    if lifetime > 0 && issued_at + lifetime <= i64::MAX {
        Some(issued_at + lifetime)
    } else {
        None
    }
}

/// Computes [`expiry_of`].
pub fn expiry(issued_at: i64, lifetime: i32) -> (expires_at: Option<i64>)
    ensures
        instant_view(expires_at) == expiry_of(issued_at as int, lifetime as int),
{
    if lifetime > 0 {
        issued_at.checked_add(lifetime as i64)
    } else {
        None
    }
}

impl Credential {
    /// Whether two credentials are stored under the same key.
    pub fn same_key(&self, other: &Credential) -> (same: bool)
        ensures
            same == (self@.key() == other@.key()),
    {
        self.managing_organization == other.managing_organization && self.tenant_id
            == other.tenant_id && self.product == other.product && self.token_type
            == other.token_type
    }
}

} // verus!
