//! A token exchange carried out against in-memory collaborators.
//!
//! [`TokenExchangeCoordinator::handle`] drives the state machine of
//! [`crate::exchange`] to its end: it answers each request from a tenant
//! directory and two credential stores and hands the answer back. What
//! the exchange amounts to is stated by [`exchanged`], without reference
//! to the machine.

use vstd::prelude::*;
use crate::credential::CredentialView;
use crate::exchange::{
    start,
    step,
    ExchangeAction,
    ExchangeActionView,
    ExchangeError,
    ExchangeEvent,
    ExchangeEventView,
    ExchangeReport,
    ExchangeReportView,
    ExchangeState,
    ExchangeStateView,
    outcome_view,
};
use crate::payloads::AuthCallback;
use crate::provider::{
    assembled,
    lemma_normalized_shape,
    normalized,
    Grant,
    GrantView,
    Identity,
    IdentityView,
    Provider,
    RawProviderTokenView,
};
use crate::store::{CredentialStore, StoreView};
use crate::tenant::{resolved, TenantDirectory, TenantView};

verus! {

/// The collaborators of an exchange as mathematical values.
pub struct WorldView {
    pub tenants: Seq<TenantView>,
    pub primary: StoreView,
    pub mirror: StoreView,
}

/// How an exchange ends, with the collaborators as it leaves them.
pub type Ending = (WorldView, Result<ExchangeReportView, ExchangeError>);

/// Writes the credentials from `position` on, one after the other.
///
/// Each goes to the primary store first; if that refuses it, the exchange
/// ends with `PersistenceFailed` and what was written before stays
/// written. The row that the primary store wrote then goes to the mirror.
/// If the mirror refuses it, the row is reported as not mirrored and the
/// exchange goes on: the primary store is not touched again for it.
pub open spec fn persisted(
    world: WorldView,
    credentials: Seq<CredentialView>,
    position: nat,
    report: ExchangeReportView,
) -> Ending
    decreases credentials.len() - position,
{
    if position >= credentials.len() {
        (world, Ok(report))
    } else {
        let credential = credentials[position as int];
        if !world.primary.accepts(credential) {
            (world, Err(ExchangeError::PersistenceFailed))
        } else {
            let row = world.primary.written(credential);
            let written = report.with_stored(row);
            persisted(
                WorldView {
                    primary: world.primary.upserted(credential),
                    mirror: world.mirror.upserted(credential),
                    ..world
                },
                credentials,
                position + 1,
                if world.mirror.accepts(credential) {
                    written
                } else {
                    written.with_unmirrored(row.id)
                },
            )
        }
    }
}

/// A grant as a mathematical value, where there is one.
pub open spec fn grant_view(grant: Option<Grant>) -> Option<GrantView> {
    match grant {
        Some(g) => Some(g@),
        None => None,
    }
}

/// An identity as a mathematical value, where there is one.
pub open spec fn identity_view(identity: Option<Identity>) -> Option<IdentityView> {
    match identity {
        Some(i) => Some(i@),
        None => None,
    }
}

/// The response of `provider`, where it granted a token of its shape and
/// said whose it is. `None` stands for a call that failed.
pub open spec fn response_of(
    provider: Provider,
    grant: Option<GrantView>,
    identity: Option<IdentityView>,
) -> Option<RawProviderTokenView> {
    match (grant, identity) {
        (Some(g), Some(i)) => assembled(provider, g, i),
        _ => None,
    }
}

/// What an exchange for `provider` amounts to, given what the provider
/// granted, what it said of the account, and the instant `now`; `None`
/// stands for a call that failed.
///
/// Without a grant of the provider's shape the exchange ends with
/// `ProviderExchangeFailed`, and the provider is not asked for the
/// account. Without an identity of the provider's shape it ends with
/// `IdentityLookupFailed`. A response whose identifier names no tenant
/// ends it with `TenantNotFound`. In all these cases no store is written
/// to. Otherwise the credentials of the response are written as
/// [`persisted`] says.
pub open spec fn exchanged(
    world: WorldView,
    provider: Provider,
    grant: Option<GrantView>,
    identity: Option<IdentityView>,
    now: int,
) -> Ending {
    if !(grant matches Some(g) && g.fits(provider)) {
        (world, Err(ExchangeError::ProviderExchangeFailed))
    } else {
        match response_of(provider, grant, identity) {
            None => (world, Err(ExchangeError::IdentityLookupFailed)),
            Some(raw) => match resolved(world.tenants, raw.tenant_identifier()) {
                Some(tenant) => persisted(
                    world,
                    normalized(raw, tenant.id, now),
                    0,
                    ExchangeReportView::empty(),
                ),
                None => (world, Err(ExchangeError::TenantNotFound)),
            },
        }
    }
}

/// Whether every credential from `position` on has a row in `store`
/// under its key.
pub open spec fn all_present(store: StoreView, credentials: Seq<CredentialView>, position: nat) -> bool {
    forall|i: int|
        position <= i < credentials.len() ==> store.position(
            (#[trigger] credentials[i]).key(),
        ) is Some
}

/// Whether no credential after the one at `i` bears its key.
pub open spec fn last_of_its_key(credentials: Seq<CredentialView>, i: int) -> bool {
    forall|j: int| i < j < credentials.len() ==> credentials[j].key() != credentials[i].key()
}

/// What writing credentials does to the primary store, whatever the
/// mirror does.
///
/// The primary store stays well formed, so that it never holds two rows
/// under one key, and a key that had a row keeps one. The only error is
/// `PersistenceFailed`. If the writing ends well, every credential has
/// been written: the report lists one row for each, every key has a row,
/// and under each key stand the values of the last credential that bears
/// it.
pub proof fn lemma_persisted_rows(
    world: WorldView,
    credentials: Seq<CredentialView>,
    position: nat,
    report: ExchangeReportView,
)
    requires
        world.primary.well_formed(),
        position <= credentials.len(),
    ensures
        ({
            let (after, outcome) = persisted(world, credentials, position, report);
            &&& after.primary.well_formed()
            &&& after.tenants == world.tenants
            &&& after.primary.rows.len() >= world.primary.rows.len()
            &&& forall|key: crate::credential::CredentialKey|
                world.primary.position(key) is Some ==> after.primary.position(key) is Some
            &&& outcome is Err ==> outcome == Err::<ExchangeReportView, ExchangeError>(
                ExchangeError::PersistenceFailed,
            )
            &&& outcome matches Ok(written) ==> {
                &&& written.stored.len() == report.stored.len() + credentials.len() - position
                &&& forall|i: int|
                    position <= i < credentials.len() ==> written.stored[report.stored.len() + i
                        - position].credential == #[trigger] credentials[i]
                &&& all_present(after.primary, credentials, position)
                &&& forall|i: int|
                    position <= i < credentials.len() && last_of_its_key(credentials, i)
                        ==> after.primary.holds(#[trigger] credentials[i])
            }
        }),
    decreases credentials.len() - position,
{
    if position < credentials.len() {
        let credential = credentials[position as int];
        if world.primary.accepts(credential) {
            let row = world.primary.written(credential);
            let written = report.with_stored(row);
            let next = WorldView {
                primary: world.primary.upserted(credential),
                mirror: world.mirror.upserted(credential),
                ..world
            };
            let next_report = if world.mirror.accepts(credential) {
                written
            } else {
                written.with_unmirrored(row.id)
            };
            crate::store::lemma_upsert_keeps_well_formed(world.primary, credential);
            crate::store::lemma_upsert_then_find(world.primary, credential);
            lemma_persisted_rows(next, credentials, position + 1, next_report);
            let (after, outcome) = persisted(world, credentials, position, report);
            assert forall|key: crate::credential::CredentialKey|
                world.primary.position(key) is Some implies after.primary.position(key) is Some by {
                if key != credential.key() {
                    crate::store::lemma_upsert_leaves_other_keys(world.primary, credential, key);
                }
            }
            if let Ok(done) = outcome {
                assert(done.stored[report.stored.len() as int].credential == credential) by {
                    lemma_persisted_keeps_report(next, credentials, position + 1, next_report);
                }
                assert forall|i: int|
                    position <= i < credentials.len() && last_of_its_key(
                        credentials,
                        i,
                    ) implies after.primary.holds(#[trigger] credentials[i]) by {
                    if i == position {
                        lemma_persisted_leaves_other_keys(
                            next,
                            credentials,
                            position + 1,
                            next_report,
                            credential.key(),
                        );
                    }
                }
            }
        }
    }
}

/// Writing credentials keeps what the report held before, in its place.
pub proof fn lemma_persisted_keeps_report(
    world: WorldView,
    credentials: Seq<CredentialView>,
    position: nat,
    report: ExchangeReportView,
)
    requires
        position <= credentials.len(),
    ensures
        persisted(world, credentials, position, report).1 matches Ok(written) ==> {
            &&& written.stored.len() >= report.stored.len()
            &&& forall|k: int| 0 <= k < report.stored.len() ==> written.stored[k] == report.stored[k]
        },
    decreases credentials.len() - position,
{
    if position < credentials.len() {
        let credential = credentials[position as int];
        if world.primary.accepts(credential) {
            let row = world.primary.written(credential);
            let written = report.with_stored(row);
            let next = WorldView {
                primary: world.primary.upserted(credential),
                mirror: world.mirror.upserted(credential),
                ..world
            };
            let next_report = if world.mirror.accepts(credential) {
                written
            } else {
                written.with_unmirrored(row.id)
            };
            lemma_persisted_keeps_report(next, credentials, position + 1, next_report);
        }
    }
}

/// Writing credentials leaves the row of a key that none of them bears as
/// it was.
pub proof fn lemma_persisted_leaves_other_keys(
    world: WorldView,
    credentials: Seq<CredentialView>,
    position: nat,
    report: ExchangeReportView,
    key: crate::credential::CredentialKey,
)
    requires
        world.primary.well_formed(),
        position <= credentials.len(),
        forall|j: int| position <= j < credentials.len() ==> credentials[j].key() != key,
    ensures
        persisted(world, credentials, position, report).0.primary.find(key) == world.primary.find(
            key,
        ),
    decreases credentials.len() - position,
{
    if position < credentials.len() {
        let credential = credentials[position as int];
        if world.primary.accepts(credential) {
            let row = world.primary.written(credential);
            let written = report.with_stored(row);
            let next = WorldView {
                primary: world.primary.upserted(credential),
                mirror: world.mirror.upserted(credential),
                ..world
            };
            let next_report = if world.mirror.accepts(credential) {
                written
            } else {
                written.with_unmirrored(row.id)
            };
            crate::store::lemma_upsert_keeps_well_formed(world.primary, credential);
            crate::store::lemma_upsert_leaves_other_keys(world.primary, credential, key);
            lemma_persisted_leaves_other_keys(next, credentials, position + 1, next_report, key);
        }
    }
}

/// Writing credentials that all have rows already always ends well and
/// adds no row.
pub proof fn lemma_persisted_over_present(
    world: WorldView,
    credentials: Seq<CredentialView>,
    position: nat,
    report: ExchangeReportView,
)
    requires
        world.primary.well_formed(),
        position <= credentials.len(),
        all_present(world.primary, credentials, position),
    ensures
        persisted(world, credentials, position, report).1 is Ok,
        persisted(world, credentials, position, report).0.primary.rows.len()
            == world.primary.rows.len(),
    decreases credentials.len() - position,
{
    if position < credentials.len() {
        let credential = credentials[position as int];
        let row = world.primary.written(credential);
        let written = report.with_stored(row);
        let next = WorldView {
            primary: world.primary.upserted(credential),
            mirror: world.mirror.upserted(credential),
            ..world
        };
        let next_report = if world.mirror.accepts(credential) {
            written
        } else {
            written.with_unmirrored(row.id)
        };
        crate::store::lemma_upsert_keeps_well_formed(world.primary, credential);
        crate::store::lemma_upsert_then_find(world.primary, credential);
        assert forall|i: int| position + 1 <= i < credentials.len() implies next.primary.position(
            (#[trigger] credentials[i]).key(),
        ) is Some by {
            if credentials[i].key() != credential.key() {
                crate::store::lemma_upsert_leaves_other_keys(
                    world.primary,
                    credential,
                    credentials[i].key(),
                );
            }
        }
        lemma_persisted_over_present(next, credentials, position + 1, next_report);
    }
}

/// The mirror has no say in what the primary store holds nor in whether
/// the writing ends well: with any other mirror the primary store ends up
/// the same, the outcome is the same error or the same rows.
pub proof fn lemma_persisted_whatever_the_mirror(
    world: WorldView,
    other: WorldView,
    credentials: Seq<CredentialView>,
    position: nat,
    report: ExchangeReportView,
    other_report: ExchangeReportView,
)
    requires
        position <= credentials.len(),
        other.primary == world.primary,
        other_report.stored == report.stored,
    ensures
        ({
            let (after, outcome) = persisted(world, credentials, position, report);
            let (other_after, other_outcome) = persisted(other, credentials, position, other_report);
            &&& other_after.primary == after.primary
            &&& match outcome {
                Ok(written) => other_outcome is Ok && other_outcome->Ok_0.stored == written.stored,
                Err(error) => other_outcome == Err::<ExchangeReportView, ExchangeError>(error),
            }
        }),
    decreases credentials.len() - position,
{
    if position < credentials.len() {
        let credential = credentials[position as int];
        if world.primary.accepts(credential) {
            let row = world.primary.written(credential);
            let next = WorldView {
                primary: world.primary.upserted(credential),
                mirror: world.mirror.upserted(credential),
                ..world
            };
            let next_report = if world.mirror.accepts(credential) {
                report.with_stored(row)
            } else {
                report.with_stored(row).with_unmirrored(row.id)
            };
            let other_next = WorldView {
                primary: other.primary.upserted(credential),
                mirror: other.mirror.upserted(credential),
                ..other
            };
            let other_next_report = if other.mirror.accepts(credential) {
                other_report.with_stored(row)
            } else {
                other_report.with_stored(row).with_unmirrored(row.id)
            };
            lemma_persisted_whatever_the_mirror(
                next,
                other_next,
                credentials,
                position + 1,
                next_report,
                other_next_report,
            );
        }
    }
}

/// Each error comes on its own inputs, and an exchange that fails before
/// its credentials are written writes to neither store.
///
/// The exchange fails with `ProviderExchangeFailed` exactly when there is
/// no grant of the provider's shape, with `IdentityLookupFailed` exactly
/// when there is such a grant and no identity of the provider's shape,
/// and with `TenantNotFound` exactly when the identifier of the response
/// names no tenant. The only other error is `PersistenceFailed`.
pub proof fn lemma_exchange_failures(
    world: WorldView,
    provider: Provider,
    grant: Option<GrantView>,
    identity: Option<IdentityView>,
    now: int,
)
    requires
        world.primary.well_formed(),
    ensures
        ({
            let (after, outcome) = exchanged(world, provider, grant, identity, now);
            let granted = grant matches Some(g) && g.fits(provider);
            let response = response_of(provider, grant, identity);
            let identity_failed = Err::<ExchangeReportView, ExchangeError>(
                ExchangeError::IdentityLookupFailed,
            );
            let provider_failed = Err::<ExchangeReportView, ExchangeError>(
                ExchangeError::ProviderExchangeFailed,
            );
            let tenant_missing = Err::<ExchangeReportView, ExchangeError>(
                ExchangeError::TenantNotFound,
            );
            let store_failed = Err::<ExchangeReportView, ExchangeError>(
                ExchangeError::PersistenceFailed,
            );
            &&& outcome == provider_failed <==> !granted
            &&& outcome == identity_failed <==> granted && response is None
            &&& outcome == tenant_missing <==> granted && response is Some && resolved(
                world.tenants,
                response->0.tenant_identifier(),
            ) is None
            &&& outcome is Err && outcome != store_failed ==> after == world
        }),
{
    if let Some(raw) = response_of(provider, grant, identity) {
        if let Some(tenant) = resolved(world.tenants, raw.tenant_identifier()) {
            lemma_persisted_rows(
                world,
                normalized(raw, tenant.id, now),
                0,
                ExchangeReportView::empty(),
            );
        }
    }
}

/// A response whose identifier names no tenant is not persisted: the
/// exchange fails with `TenantNotFound` and both stores stay as they
/// were.
pub proof fn lemma_unknown_tenant_writes_nothing(
    world: WorldView,
    provider: Provider,
    grant: Option<GrantView>,
    identity: Option<IdentityView>,
    now: int,
)
    requires
        response_of(provider, grant, identity) is Some,
        resolved(
            world.tenants,
            response_of(provider, grant, identity)->0.tenant_identifier(),
        ) is None,
    ensures
        exchanged(world, provider, grant, identity, now) == (
            world,
            Err::<ExchangeReportView, ExchangeError>(ExchangeError::TenantNotFound),
        ),
{
}

/// What a successful exchange leaves in the primary store.
///
/// It has written one row for each credential of the response: one, or
/// two for a Slack response with a token of the end user. Every row
/// belongs to the resolved tenant, bears the provider's name and is owned
/// by the managing organization. The store still holds at most one row
/// per key, and under each key stand the values of the last credential
/// that bears it.
pub proof fn lemma_exchange_rows(
    world: WorldView,
    provider: Provider,
    grant: Option<GrantView>,
    identity: Option<IdentityView>,
    now: int,
)
    requires
        world.primary.well_formed(),
        exchanged(world, provider, grant, identity, now).1 is Ok,
    ensures
        ({
            let (after, outcome) = exchanged(world, provider, grant, identity, now);
            let raw = response_of(provider, grant, identity)->0;
            let tenant = resolved(world.tenants, raw.tenant_identifier())->0;
            let credentials = normalized(raw, tenant.id, now);
            let written = outcome->Ok_0;
            &&& response_of(provider, grant, identity) is Some
            &&& resolved(world.tenants, raw.tenant_identifier()) is Some
            &&& after.primary.well_formed()
            &&& written.stored.len() == credentials.len()
            &&& credentials.len() == if raw matches crate::provider::RawProviderTokenView::Slack {
                token,
                ..
            } && token.authed_user is Some {
                2nat
            } else {
                1nat
            }
            &&& forall|i: int|
                0 <= i < credentials.len() ==> {
                    let credential = #[trigger] credentials[i];
                    &&& written.stored[i].credential == credential
                    &&& credential.managing_organization
                        == crate::credential::MANAGING_ORGANIZATION
                    &&& credential.tenant_id == tenant.id
                    &&& credential.product == crate::provider::product_name(provider)
                    &&& last_of_its_key(credentials, i) ==> after.primary.holds(credential)
                }
        }),
{
    let raw = response_of(provider, grant, identity)->0;
    let tenant = resolved(world.tenants, raw.tenant_identifier())->0;
    let credentials = normalized(raw, tenant.id, now);
    lemma_persisted_rows(world, credentials, 0, ExchangeReportView::empty());
}

/// An exchange is idempotent: carried out a second time with the same
/// answers of the provider, at whatever instant, it ends well again, adds
/// no row, and leaves under each key the values of the second time.
pub proof fn lemma_exchange_twice(
    world: WorldView,
    provider: Provider,
    grant: Option<GrantView>,
    identity: Option<IdentityView>,
    first: int,
    second: int,
)
    requires
        world.primary.well_formed(),
        exchanged(world, provider, grant, identity, first).1 is Ok,
    ensures
        ({
            let once = exchanged(world, provider, grant, identity, first).0;
            let (twice, outcome) = exchanged(once, provider, grant, identity, second);
            let raw = response_of(provider, grant, identity)->0;
            let tenant = resolved(world.tenants, raw.tenant_identifier())->0;
            let credentials = normalized(raw, tenant.id, second);
            &&& outcome is Ok
            &&& twice.primary.well_formed()
            &&& twice.primary.rows.len() == once.primary.rows.len()
            &&& forall|i: int|
                0 <= i < credentials.len() && last_of_its_key(credentials, i)
                    ==> twice.primary.holds(#[trigger] credentials[i])
        }),
{
    let raw = response_of(provider, grant, identity)->0;
    let tenant = resolved(world.tenants, raw.tenant_identifier())->0;
    let before = normalized(raw, tenant.id, first);
    let credentials = normalized(raw, tenant.id, second);
    let once = exchanged(world, provider, grant, identity, first).0;
    lemma_persisted_rows(world, before, 0, ExchangeReportView::empty());
    lemma_persisted_over_present(once, credentials, 0, ExchangeReportView::empty());
    lemma_persisted_rows(once, credentials, 0, ExchangeReportView::empty());
}

/// A mirror that fails does not undo the exchange: with any other
/// mirror, and so with one that takes nothing, the exchange ends with the
/// same error or with the same rows written, and the primary store holds
/// the same rows.
pub proof fn lemma_mirror_failure_is_isolated(
    world: WorldView,
    other_mirror: StoreView,
    provider: Provider,
    grant: Option<GrantView>,
    identity: Option<IdentityView>,
    now: int,
)
    ensures
        ({
            let (after, outcome) = exchanged(world, provider, grant, identity, now);
            let (other_after, other_outcome) = exchanged(
                WorldView { mirror: other_mirror, ..world },
                provider,
                grant,
                identity,
                now,
            );
            &&& other_after.primary == after.primary
            &&& match outcome {
                Ok(written) => other_outcome is Ok && other_outcome->Ok_0.stored == written.stored,
                Err(error) => other_outcome == Err::<ExchangeReportView, ExchangeError>(error),
            }
        }),
{
    if let Some(raw) = response_of(provider, grant, identity) {
        if let Some(tenant) = resolved(world.tenants, raw.tenant_identifier()) {
            lemma_persisted_whatever_the_mirror(
                world,
                WorldView { mirror: other_mirror, ..world },
                normalized(raw, tenant.id, now),
                0,
                ExchangeReportView::empty(),
                ExchangeReportView::empty(),
            );
        }
    }
}

/// What is left of an exchange that stands at `state` with the request
/// `action` open, as long as the two fit together.
spec fn remaining(state: ExchangeStateView, action: ExchangeActionView, world: WorldView) -> Ending {
    match (state, action) {
        (
            ExchangeStateView::AwaitingPrimary { credentials, position, report },
            ExchangeActionView::UpsertPrimary { credential },
        ) => persisted(world, credentials, position, report),
        (
            ExchangeStateView::AwaitingMirror { credentials, position, row_id, report },
            ExchangeActionView::UpsertMirror { row },
        ) => persisted(
            WorldView { mirror: world.mirror.upserted(row.credential), ..world },
            credentials,
            position + 1,
            if world.mirror.accepts(row.credential) {
                report
            } else {
                report.with_unmirrored(row_id)
            },
        ),
        (_, ExchangeActionView::Finish { outcome }) => (world, outcome),
        _ => (world, Err(ExchangeError::PersistenceFailed)),
    }
}

/// Whether `action` is the request that `state` waits on.
spec fn fits(state: ExchangeStateView, action: ExchangeActionView) -> bool {
    match (state, action) {
        (
            ExchangeStateView::AwaitingPrimary { credentials, position, .. },
            ExchangeActionView::UpsertPrimary { credential },
        ) => position < credentials.len() && credentials[position as int] == credential,
        (
            ExchangeStateView::AwaitingMirror { credentials, position, row_id, .. },
            ExchangeActionView::UpsertMirror { row },
        ) => position < credentials.len() && row.id == row_id,
        (ExchangeStateView::Finished, ExchangeActionView::Finish { .. }) => true,
        _ => false,
    }
}

/// Number of requests that an exchange at `state` may still make.
spec fn requests_left(state: ExchangeStateView) -> nat {
    match state {
        ExchangeStateView::AwaitingPrimary { credentials, position, .. } => if position
            < credentials.len() {
            (2 * (credentials.len() - position)) as nat
        } else {
            0
        },
        ExchangeStateView::AwaitingMirror { credentials, position, .. } => if position
            < credentials.len() {
            (2 * (credentials.len() - position) - 1) as nat
        } else {
            0
        },
        _ => 0,
    }
}

/// Carries out the exchanges of one provider.
#[derive(Debug, PartialEq, Eq)]
pub struct TokenExchangeCoordinator {
    pub provider: Provider,
}

impl TokenExchangeCoordinator {
    /// A coordinator for `provider`.
    pub fn new(provider: Provider) -> (coordinator: TokenExchangeCoordinator)
        ensures
            coordinator.provider == provider,
    {
        TokenExchangeCoordinator { provider }
    }

    /// Carries out one exchange with what the provider granted and what it
    /// said of the account, `None` standing for a call that failed:
    /// resolves the tenant in `tenants`, normalizes the response at the
    /// instant `now`, and writes each credential to `primary` and then to
    /// `mirror`.
    ///
    /// The outcome and the stores afterwards are those of [`exchanged`].
    pub fn handle(
        &self,
        callback: AuthCallback,
        grant: Option<Grant>,
        identity: Option<Identity>,
        tenants: &TenantDirectory,
        primary: &mut CredentialStore,
        mirror: &mut CredentialStore,
        now: i64,
    ) -> (outcome: Result<ExchangeReport, ExchangeError>)
        ensures
            (
                WorldView { tenants: tenants@, primary: final(primary)@, mirror: final(mirror)@ },
                outcome_view(outcome),
            ) == exchanged(
                WorldView { tenants: tenants@, primary: old(primary)@, mirror: old(mirror)@ },
                self.provider,
                grant_view(grant),
                identity_view(identity),
                now as int,
            ),
    {
        let ghost world = WorldView { tenants: tenants@, primary: primary@, mirror: mirror@ };
        let ghost goal = exchanged(
            world,
            self.provider,
            grant_view(grant),
            identity_view(identity),
            now as int,
        );
        let begun = start(self.provider, callback);
        let granted = step(
            begun.0,
            match grant {
                Some(grant) => ExchangeEvent::CodeExchanged { grant },
                None => ExchangeEvent::ProviderExchangeFailed,
            },
            now,
        );
        let identified = match granted.1 {
            ExchangeAction::LookupIdentity { .. } => step(
                granted.0,
                match identity {
                    Some(identity) => ExchangeEvent::Identified { identity },
                    None => ExchangeEvent::IdentityLookupFailed,
                },
                now,
            ),
            _ => granted,
        };
        let resolved = match identified.1 {
            ExchangeAction::ResolveTenant { identifier } => {
                let answer = match tenants.resolve(identifier.as_str()) {
                    Some(tenant) => ExchangeEvent::TenantResolved { tenant },
                    None => ExchangeEvent::TenantNotFound,
                };
                proof {
                    if let ExchangeStateView::AwaitingTenant { raw } = identified.0@ {
                        if let ExchangeEventView::TenantResolved { tenant } = answer@ {
                            lemma_normalized_shape(raw, tenant.id, now as int);
                        }
                    }
                }
                step(identified.0, answer, now)
            },
            _ => identified,
        };
        let mut state = resolved.0;
        let mut action = resolved.1;
        loop
            invariant
                goal == exchanged(
                    WorldView { tenants: tenants@, primary: old(primary)@, mirror: old(mirror)@ },
                    self.provider,
                    grant_view(grant),
                    identity_view(identity),
                    now as int,
                ),
                fits(state@, action@),
                remaining(
                    state@,
                    action@,
                    WorldView { tenants: tenants@, primary: primary@, mirror: mirror@ },
                ) == goal,
            decreases requests_left(state@),
        {
            let answer = match action {
                ExchangeAction::UpsertPrimary { credential } => match primary.upsert(credential) {
                    Ok(row) => ExchangeEvent::PrimaryStored { row },
                    Err(_) => ExchangeEvent::PersistenceFailed,
                },
                ExchangeAction::UpsertMirror { row } => match mirror.upsert(row.credential) {
                    Ok(_) => ExchangeEvent::MirrorStored,
                    Err(_) => ExchangeEvent::MirrorPersistenceFailed,
                },
                ExchangeAction::Finish { outcome } => {
                    return outcome;
                },
                _ => {
                    return Err(ExchangeError::PersistenceFailed);
                },
            };
            let next = step(state, answer, now);
            state = next.0;
            action = next.1;
        }
    }
}

} // verus!
