//! The token exchange as a state machine.
//!
//! An exchange asks its collaborators for work, one request at a time:
//! the provider for a token and then for the account behind it, the
//! tenant directory for a tenant, the primary store and its mirror for a
//! write. [`step`] takes the answer to
//! the last request and says what to ask next. It performs nothing itself;
//! whoever drives it does the asking.

use vstd::prelude::*;
use vstd::string::*;
use crate::credential::{Credential, CredentialView};
use crate::payloads::AuthCallback;
use crate::provider::{
    assemble,
    assembled,
    credential_views,
    normalize,
    normalized,
    Grant,
    GrantView,
    Identity,
    IdentityView,
    Provider,
    RawProviderToken,
    RawProviderTokenView,
};
use crate::store::{StoredCredential, StoredCredentialView};
use crate::tenant::{Tenant, TenantView};

verus! {

/// The reason for which an exchange ends without its credentials stored.
#[derive(Clone, Copy, Debug, PartialEq, Eq, Structural)]
pub enum ExchangeError {
    /// The provider did not exchange the code for a token.
    ProviderExchangeFailed,
    /// The provider did not say whose token it is.
    IdentityLookupFailed,
    /// No tenant is known under the identifier of the response.
    TenantNotFound,
    /// The primary store refused a credential.
    PersistenceFailed,
}

/// What a finished exchange has written.
#[derive(Debug, PartialEq, Eq)]
pub struct ExchangeReport {
    /// The rows written to the primary store, in the order of writing.
    pub stored: Vec<StoredCredential>,
    /// Identifiers of the rows that the mirror did not take.
    pub unmirrored: Vec<u64>,
}

/// Mathematical value of an [`ExchangeReport`].
pub struct ExchangeReportView {
    pub stored: Seq<StoredCredentialView>,
    pub unmirrored: Seq<nat>,
}

impl View for ExchangeReport {
    type V = ExchangeReportView;

    open spec fn view(&self) -> ExchangeReportView {
        ExchangeReportView {
            stored: Seq::new(self.stored@.len(), |i: int| self.stored@[i]@),
            unmirrored: Seq::new(self.unmirrored@.len(), |i: int| self.unmirrored@[i] as nat),
        }
    }
}

impl ExchangeReportView {
    /// The report of an exchange that has written nothing yet.
    pub open spec fn empty() -> ExchangeReportView {
        ExchangeReportView { stored: Seq::empty(), unmirrored: Seq::empty() }
    }

    /// The report after the primary store wrote `row`.
    pub open spec fn with_stored(self, row: StoredCredentialView) -> ExchangeReportView {
        ExchangeReportView { stored: self.stored.push(row), ..self }
    }

    /// The report after the mirror refused the row `id`.
    pub open spec fn with_unmirrored(self, id: nat) -> ExchangeReportView {
        ExchangeReportView { unmirrored: self.unmirrored.push(id), ..self }
    }
}

/// How an exchange ended, as a mathematical value.
pub open spec fn outcome_view(outcome: Result<ExchangeReport, ExchangeError>) -> Result<
    ExchangeReportView,
    ExchangeError,
> {
    match outcome {
        Ok(report) => Ok(report@),
        Err(error) => Err(error),
    }
}

/// An answer of a collaborator.
#[derive(Debug, PartialEq, Eq)]
pub enum ExchangeEvent {
    /// The provider exchanged the code for a grant.
    CodeExchanged { grant: Grant },
    /// The provider did not exchange the code.
    ProviderExchangeFailed,
    /// The provider said whose grant it is.
    Identified { identity: Identity },
    /// The provider did not say whose grant it is.
    IdentityLookupFailed,
    /// The directory knows the tenant.
    TenantResolved { tenant: Tenant },
    /// The directory knows no such tenant.
    TenantNotFound,
    /// The primary store wrote the row.
    PrimaryStored { row: StoredCredential },
    /// The primary store did not write.
    PersistenceFailed,
    /// The mirror took the row.
    MirrorStored,
    /// The mirror did not take the row.
    MirrorPersistenceFailed,
}

/// Mathematical value of an [`ExchangeEvent`].
pub enum ExchangeEventView {
    CodeExchanged { grant: GrantView },
    ProviderExchangeFailed,
    Identified { identity: IdentityView },
    IdentityLookupFailed,
    TenantResolved { tenant: TenantView },
    TenantNotFound,
    PrimaryStored { row: StoredCredentialView },
    PersistenceFailed,
    MirrorStored,
    MirrorPersistenceFailed,
}

impl View for ExchangeEvent {
    type V = ExchangeEventView;

    open spec fn view(&self) -> ExchangeEventView {
        match self {
            ExchangeEvent::CodeExchanged { grant } => ExchangeEventView::CodeExchanged {
                grant: grant@,
            },
            ExchangeEvent::ProviderExchangeFailed => ExchangeEventView::ProviderExchangeFailed,
            ExchangeEvent::Identified { identity } => ExchangeEventView::Identified {
                identity: identity@,
            },
            ExchangeEvent::IdentityLookupFailed => ExchangeEventView::IdentityLookupFailed,
            ExchangeEvent::TenantResolved { tenant } => ExchangeEventView::TenantResolved {
                tenant: tenant@,
            },
            ExchangeEvent::TenantNotFound => ExchangeEventView::TenantNotFound,
            ExchangeEvent::PrimaryStored { row } => ExchangeEventView::PrimaryStored { row: row@ },
            ExchangeEvent::PersistenceFailed => ExchangeEventView::PersistenceFailed,
            ExchangeEvent::MirrorStored => ExchangeEventView::MirrorStored,
            ExchangeEvent::MirrorPersistenceFailed => ExchangeEventView::MirrorPersistenceFailed,
        }
    }
}

/// A request to a collaborator, or the end of the exchange.
#[derive(Debug, PartialEq, Eq)]
pub enum ExchangeAction {
    /// Exchange the authorization code with the provider.
    ExchangeCode { provider: Provider, code: String, state: String },
    /// Ask the provider whose grant it is, with the access token of the
    /// grant.
    LookupIdentity { provider: Provider, access_token: String },
    /// Look the tenant up under `identifier`.
    ResolveTenant { identifier: String },
    /// Upsert the credential into the primary store.
    UpsertPrimary { credential: Credential },
    /// Upsert the row into the mirror.
    UpsertMirror { row: StoredCredential },
    /// The exchange has ended with `outcome`.
    Finish { outcome: Result<ExchangeReport, ExchangeError> },
    /// The exchange had ended before: there is nothing to do.
    Halt,
}

/// Mathematical value of an [`ExchangeAction`].
pub enum ExchangeActionView {
    ExchangeCode { provider: Provider, code: Seq<char>, state: Seq<char> },
    LookupIdentity { provider: Provider, access_token: Seq<char> },
    ResolveTenant { identifier: Seq<char> },
    UpsertPrimary { credential: CredentialView },
    UpsertMirror { row: StoredCredentialView },
    Finish { outcome: Result<ExchangeReportView, ExchangeError> },
    Halt,
}

impl View for ExchangeAction {
    type V = ExchangeActionView;

    open spec fn view(&self) -> ExchangeActionView {
        match self {
            ExchangeAction::ExchangeCode { provider, code, state } => ExchangeActionView::ExchangeCode {
                provider: *provider,
                code: code@,
                state: state@,
            },
            ExchangeAction::LookupIdentity {
                provider,
                access_token,
            } => ExchangeActionView::LookupIdentity {
                provider: *provider,
                access_token: access_token@,
            },
            ExchangeAction::ResolveTenant { identifier } => ExchangeActionView::ResolveTenant {
                identifier: identifier@,
            },
            ExchangeAction::UpsertPrimary { credential } => ExchangeActionView::UpsertPrimary {
                credential: credential@,
            },
            ExchangeAction::UpsertMirror { row } => ExchangeActionView::UpsertMirror { row: row@ },
            ExchangeAction::Finish { outcome } => ExchangeActionView::Finish {
                outcome: outcome_view(*outcome),
            },
            ExchangeAction::Halt => ExchangeActionView::Halt,
        }
    }
}

/// Where an exchange stands: which answer it waits for, and what it has
/// gathered so far.
#[derive(Debug, PartialEq, Eq)]
pub enum ExchangeState {
    /// Waiting for the provider to exchange the code.
    AwaitingGrant { provider: Provider },
    /// Waiting for the provider to say whose grant it is.
    AwaitingIdentity { provider: Provider, grant: Grant },
    /// Waiting for the tenant of the response.
    AwaitingTenant { raw: RawProviderToken },
    /// Waiting for the primary store to write the credential at
    /// `position`.
    AwaitingPrimary { credentials: Vec<Credential>, position: usize, report: ExchangeReport },
    /// Waiting for the mirror to take the row written for the credential
    /// at `position`.
    AwaitingMirror {
        credentials: Vec<Credential>,
        position: usize,
        row_id: u64,
        report: ExchangeReport,
    },
    /// The exchange has ended.
    Finished,
}

/// Mathematical value of an [`ExchangeState`].
pub enum ExchangeStateView {
    AwaitingGrant { provider: Provider },
    AwaitingIdentity { provider: Provider, grant: GrantView },
    AwaitingTenant { raw: RawProviderTokenView },
    AwaitingPrimary { credentials: Seq<CredentialView>, position: nat, report: ExchangeReportView },
    AwaitingMirror {
        credentials: Seq<CredentialView>,
        position: nat,
        row_id: nat,
        report: ExchangeReportView,
    },
    Finished,
}

impl View for ExchangeState {
    type V = ExchangeStateView;

    open spec fn view(&self) -> ExchangeStateView {
        match self {
            ExchangeState::AwaitingGrant { provider } => ExchangeStateView::AwaitingGrant {
                provider: *provider,
            },
            ExchangeState::AwaitingIdentity { provider, grant } => ExchangeStateView::AwaitingIdentity {
                provider: *provider,
                grant: grant@,
            },
            ExchangeState::AwaitingTenant { raw } => ExchangeStateView::AwaitingTenant { raw: raw@ },
            ExchangeState::AwaitingPrimary {
                credentials,
                position,
                report,
            } => ExchangeStateView::AwaitingPrimary {
                credentials: credential_views(credentials@),
                position: *position as nat,
                report: report@,
            },
            ExchangeState::AwaitingMirror {
                credentials,
                position,
                row_id,
                report,
            } => ExchangeStateView::AwaitingMirror {
                credentials: credential_views(credentials@),
                position: *position as nat,
                row_id: *row_id as nat,
                report: report@,
            },
            ExchangeState::Finished => ExchangeStateView::Finished,
        }
    }
}

/// The exchange ends with `outcome`.
pub open spec fn finishing(outcome: Result<ExchangeReportView, ExchangeError>) -> (
    ExchangeStateView,
    ExchangeActionView,
) {
    (ExchangeStateView::Finished, ExchangeActionView::Finish { outcome })
}

/// The exchange goes on with the credential at `position`, or ends well
/// where there is none left.
pub open spec fn persisting(
    credentials: Seq<CredentialView>,
    position: nat,
    report: ExchangeReportView,
) -> (ExchangeStateView, ExchangeActionView) {
    if position < credentials.len() {
        (
            ExchangeStateView::AwaitingPrimary { credentials, position, report },
            ExchangeActionView::UpsertPrimary { credential: credentials[position as int] },
        )
    } else {
        finishing(Ok(report))
    }
}

/// How an exchange for `provider` begins.
pub open spec fn started(provider: Provider, code: Seq<char>, state: Seq<char>) -> (
    ExchangeStateView,
    ExchangeActionView,
) {
    (
        ExchangeStateView::AwaitingGrant { provider },
        ExchangeActionView::ExchangeCode { provider, code, state },
    )
}

/// The next state of an exchange and its next request, given the answer
/// to the last one and the instant `now`.
///
/// Each step short-circuits on failure: a code that the provider did not
/// exchange, an account that it did not identify, a tenant that is not
/// known and a primary store that did not write each end the exchange
/// with their error, and nothing further is asked. A grant or an identity
/// of another shape than the provider's counts as none. Only the mirror
/// may fail without ending the exchange: the row is reported as not
/// mirrored and the exchange goes on. An answer that the state does not
/// wait for counts as the failure of what it waits for.
pub open spec fn stepped(state: ExchangeStateView, event: ExchangeEventView, now: int) -> (
    ExchangeStateView,
    ExchangeActionView,
) {
    match state {
        ExchangeStateView::AwaitingGrant { provider } => match event {
            ExchangeEventView::CodeExchanged { grant } => if grant.fits(provider) {
                (
                    ExchangeStateView::AwaitingIdentity { provider, grant },
                    ExchangeActionView::LookupIdentity {
                        provider,
                        access_token: grant.access_token(),
                    },
                )
            } else {
                finishing(Err(ExchangeError::ProviderExchangeFailed))
            },
            _ => finishing(Err(ExchangeError::ProviderExchangeFailed)),
        },
        ExchangeStateView::AwaitingIdentity { provider, grant } => match event {
            ExchangeEventView::Identified { identity } => match assembled(provider, grant, identity) {
                Some(raw) => (
                    ExchangeStateView::AwaitingTenant { raw },
                    ExchangeActionView::ResolveTenant { identifier: raw.tenant_identifier() },
                ),
                None => finishing(Err(ExchangeError::IdentityLookupFailed)),
            },
            _ => finishing(Err(ExchangeError::IdentityLookupFailed)),
        },
        ExchangeStateView::AwaitingTenant { raw } => match event {
            ExchangeEventView::TenantResolved { tenant } => persisting(
                normalized(raw, tenant.id, now),
                0,
                ExchangeReportView::empty(),
            ),
            _ => finishing(Err(ExchangeError::TenantNotFound)),
        },
        ExchangeStateView::AwaitingPrimary { credentials, position, report } => match event {
            ExchangeEventView::PrimaryStored { row } => (
                ExchangeStateView::AwaitingMirror {
                    credentials,
                    position,
                    row_id: row.id,
                    report: report.with_stored(row),
                },
                ExchangeActionView::UpsertMirror { row },
            ),
            _ => finishing(Err(ExchangeError::PersistenceFailed)),
        },
        ExchangeStateView::AwaitingMirror { credentials, position, row_id, report } => match event {
            ExchangeEventView::MirrorStored => persisting(credentials, position + 1, report),
            _ => persisting(credentials, position + 1, report.with_unmirrored(row_id)),
        },
        ExchangeStateView::Finished => (ExchangeStateView::Finished, ExchangeActionView::Halt),
    }
}

/// A step that fails ends the exchange at once, with the error of the
/// step: a code that was not exchanged, an account that was not
/// identified, a tenant that is not known, a primary store that did not
/// write.
pub proof fn lemma_failure_ends_the_exchange(
    state: ExchangeStateView,
    event: ExchangeEventView,
    now: int,
)
    ensures
        state is AwaitingGrant && !(event is CodeExchanged) ==> stepped(state, event, now)
            == finishing(Err(ExchangeError::ProviderExchangeFailed)),
        state is AwaitingIdentity && !(event is Identified) ==> stepped(state, event, now)
            == finishing(Err(ExchangeError::IdentityLookupFailed)),
        state is AwaitingTenant && !(event is TenantResolved) ==> stepped(state, event, now)
            == finishing(Err(ExchangeError::TenantNotFound)),
        state is AwaitingPrimary && !(event is PrimaryStored) ==> stepped(state, event, now)
            == finishing(Err(ExchangeError::PersistenceFailed)),
{
}

/// Nothing is written before a tenant is resolved: a write to the primary
/// store is asked for only on a resolved tenant or after the write before
/// it, and a write to the mirror only on a row that the primary store
/// wrote.
pub proof fn lemma_writes_follow_a_resolved_tenant(
    state: ExchangeStateView,
    event: ExchangeEventView,
    now: int,
)
    ensures
        stepped(state, event, now).1 is UpsertPrimary ==> (state is AwaitingTenant && event
            is TenantResolved) || state is AwaitingMirror,
        stepped(state, event, now).1 matches ExchangeActionView::UpsertMirror { row } ==> state
            is AwaitingPrimary && event == (ExchangeEventView::PrimaryStored { row }),
{
}

/// The mirror never fails an exchange: whatever it answers, the exchange
/// goes on with the next credential or ends well, and what it has written
/// stays in its report.
pub proof fn lemma_mirror_is_never_fatal(
    state: ExchangeStateView,
    event: ExchangeEventView,
    now: int,
)
    requires
        state is AwaitingMirror,
    ensures
        match stepped(state, event, now).1 {
            ExchangeActionView::UpsertPrimary { .. } => stepped(state, event, now).0
                matches ExchangeStateView::AwaitingPrimary { report, .. } && report.stored
                == state->AwaitingMirror_report.stored,
            ExchangeActionView::Finish { outcome } => outcome matches Ok(report) && report.stored
                == state->AwaitingMirror_report.stored,
            _ => false,
        },
{
}

/// An exchange that has ended stays ended and asks for nothing more.
pub proof fn lemma_finished_is_final(event: ExchangeEventView, now: int)
    ensures
        stepped(ExchangeStateView::Finished, event, now) == (
            ExchangeStateView::Finished,
            ExchangeActionView::Halt,
        ),
{
}

fn finish(outcome: Result<ExchangeReport, ExchangeError>) -> (next: (ExchangeState, ExchangeAction))
    ensures
        (next.0@, next.1@) == finishing(outcome_view(outcome)),
{
    (ExchangeState::Finished, ExchangeAction::Finish { outcome })
}

fn persist(credentials: Vec<Credential>, position: usize, report: ExchangeReport) -> (next: (
    ExchangeState,
    ExchangeAction,
))
    ensures
        (next.0@, next.1@) == persisting(credential_views(credentials@), position as nat, report@),
{
    if position < credentials.len() {
        let credential = credentials[position].clone();
        (
            ExchangeState::AwaitingPrimary { credentials, position, report },
            ExchangeAction::UpsertPrimary { credential },
        )
    } else {
        finish(Ok(report))
    }
}

/// Begins an exchange: the code and the state of the callback go to the
/// provider.
pub fn start(provider: Provider, callback: AuthCallback) -> (next: (ExchangeState, ExchangeAction))
    ensures
        (next.0@, next.1@) == started(provider, callback.code@, callback.state@),
{
    (
        ExchangeState::AwaitingGrant { provider },
        ExchangeAction::ExchangeCode { provider, code: callback.code, state: callback.state },
    )
}

/// Advances an exchange by one answer. See [`stepped`].
pub fn step(state: ExchangeState, event: ExchangeEvent, now: i64) -> (next: (
    ExchangeState,
    ExchangeAction,
))
    ensures
        (next.0@, next.1@) == stepped(state@, event@, now as int),
{
    match state {
        ExchangeState::AwaitingGrant { provider } => match event {
            ExchangeEvent::CodeExchanged { grant } => {
                if grant.fits(provider) {
                    let access_token = grant.access_token();
                    (
                        ExchangeState::AwaitingIdentity { provider, grant },
                        ExchangeAction::LookupIdentity { provider, access_token },
                    )
                } else {
                    finish(Err(ExchangeError::ProviderExchangeFailed))
                }
            },
            _ => finish(Err(ExchangeError::ProviderExchangeFailed)),
        },
        ExchangeState::AwaitingIdentity { provider, grant } => match event {
            ExchangeEvent::Identified { identity } => match assemble(provider, grant, identity) {
                Some(raw) => {
                    let identifier = raw.tenant_identifier();
                    (
                        ExchangeState::AwaitingTenant { raw },
                        ExchangeAction::ResolveTenant { identifier },
                    )
                },
                None => finish(Err(ExchangeError::IdentityLookupFailed)),
            },
            _ => finish(Err(ExchangeError::IdentityLookupFailed)),
        },
        ExchangeState::AwaitingTenant { raw } => match event {
            ExchangeEvent::TenantResolved { tenant } => {
                let credentials = normalize(&raw, tenant.id, now);
                let report = ExchangeReport { stored: Vec::new(), unmirrored: Vec::new() };
                assert(report@.stored =~= Seq::empty() && report@.unmirrored =~= Seq::empty());
                persist(credentials, 0, report)
            },
            _ => finish(Err(ExchangeError::TenantNotFound)),
        },
        ExchangeState::AwaitingPrimary { credentials, position, report } => match event {
            ExchangeEvent::PrimaryStored { row } => {
                let mut report = report;
                let ghost before = report@;
                report.stored.push(row.clone());
                assert(report@.stored =~= before.stored.push(row@));
                (
                    ExchangeState::AwaitingMirror { credentials, position, row_id: row.id, report },
                    ExchangeAction::UpsertMirror { row },
                )
            },
            _ => finish(Err(ExchangeError::PersistenceFailed)),
        },
        ExchangeState::AwaitingMirror { credentials, position, row_id, report } => {
            let mut report = report;
            match event {
                ExchangeEvent::MirrorStored => {},
                _ => {
                    let ghost before = report@;
                    report.unmirrored.push(row_id);
                    assert(report@.unmirrored =~= before.unmirrored.push(row_id as nat));
                },
            }
            if position < usize::MAX {
                persist(credentials, position + 1, report)
            } else {
                finish(Ok(report))
            }
        },
        ExchangeState::Finished => (ExchangeState::Finished, ExchangeAction::Halt),
    }
}

/// Advances an exchange by one answer at the present instant, as the
/// system clock gives it. The step is one of [`stepped`], at whatever
/// instant the clock showed.
pub fn advance(state: ExchangeState, event: ExchangeEvent) -> (next: (ExchangeState, ExchangeAction))
    ensures
        exists|now: i64| (next.0@, next.1@) == #[trigger] stepped(state@, event@, now as int),
{
    let now = crate::clock::now();
    step(state, event, now)
}

} // verus!
