//! What each provider hands back, and how it becomes a credential.
//!
//! Providers differ in where the account identifier comes from, in
//! whether a token expires, and in how many credentials one callback
//! carries. [`normalize`] absorbs these differences.

use vstd::prelude::*;
use vstd::string::*;
use crate::credential::{expiry, expiry_of, Credential, CredentialView, MANAGING_ORGANIZATION};
use crate::domain::{domain_of, email_domain};

verus! {

/// The providers whose authorization codes the gateway exchanges.
#[derive(Clone, Copy, Debug, PartialEq, Eq, Structural)]
pub enum Provider {
    Google,
    MailChimp,
    Gusto,
    Zoom,
    Ramp,
    Slack,
}

/// Canonical short name of a provider.
pub open spec fn product_name(provider: Provider) -> Seq<char> {
    match provider {
        Provider::Google => "google"@,
        Provider::MailChimp => "mailchimp"@,
        Provider::Gusto => "gusto"@,
        Provider::Zoom => "zoom"@,
        Provider::Ramp => "ramp"@,
        Provider::Slack => "slack"@,
    }
}

impl Provider {
    /// The name under which the provider's credentials are stored.
    pub fn product(&self) -> (name: String)
        ensures
            name@ == product_name(*self),
    {
        match self {
            Provider::Google => String::from_str("google"),
            Provider::MailChimp => String::from_str("mailchimp"),
            Provider::Gusto => String::from_str("gusto"),
            Provider::Zoom => String::from_str("zoom"),
            Provider::Ramp => String::from_str("ramp"),
            Provider::Slack => String::from_str("slack"),
        }
    }
}

/// A text as a mathematical value, where there is one.
pub open spec fn text_view(text: Option<String>) -> Option<Seq<char>> {
    match text {
        Some(s) => Some(s@),
        None => None,
    }
}

/// The text itself, or the empty text where there is none.
pub open spec fn text_or_empty(text: Option<Seq<char>>) -> Seq<char> {
    match text {
        Some(s) => s,
        None => Seq::empty(),
    }
}

fn cloned_or_empty(text: &Option<String>) -> (copy: String)
    ensures
        copy@ == text_or_empty(text_view(*text)),
{
    match text {
        Some(s) => s.clone(),
        None => String::new(),
    }
}

fn cloned_text(text: &Option<String>) -> (copy: Option<String>)
    ensures
        copy == *text,
{
    match text {
        Some(s) => Some(s.clone()),
        None => None,
    }
}

/// The token that an authorization-code exchange returns.
#[derive(Debug, PartialEq, Eq)]
pub struct AccessToken {
    pub token_type: String,
    pub access_token: String,
    /// Lifetime of the access token in seconds.
    pub expires_in: i64,
    pub refresh_token: String,
    /// Lifetime of the refresh token in seconds.
    pub refresh_token_expires_in: i64,
}

/// Mathematical value of an [`AccessToken`].
pub struct AccessTokenView {
    pub token_type: Seq<char>,
    pub access_token: Seq<char>,
    pub expires_in: int,
    pub refresh_token: Seq<char>,
    pub refresh_token_expires_in: int,
}

impl View for AccessToken {
    type V = AccessTokenView;

    open spec fn view(&self) -> AccessTokenView {
        AccessTokenView {
            token_type: self.token_type@,
            access_token: self.access_token@,
            expires_in: self.expires_in as int,
            refresh_token: self.refresh_token@,
            refresh_token_expires_in: self.refresh_token_expires_in as int,
        }
    }
}

impl Clone for AccessToken {
    fn clone(&self) -> (copy: Self)
        ensures
            copy == *self,
    {
        AccessToken {
            token_type: self.token_type.clone(),
            access_token: self.access_token.clone(),
            expires_in: self.expires_in,
            refresh_token: self.refresh_token.clone(),
            refresh_token_expires_in: self.refresh_token_expires_in,
        }
    }
}

/// The end user's own token inside a Slack response.
#[derive(Debug, PartialEq, Eq)]
pub struct SlackUserToken {
    pub token_type: String,
    pub access_token: String,
}

/// Mathematical value of a [`SlackUserToken`].
pub struct SlackUserTokenView {
    pub token_type: Seq<char>,
    pub access_token: Seq<char>,
}

impl View for SlackUserToken {
    type V = SlackUserTokenView;

    open spec fn view(&self) -> SlackUserTokenView {
        SlackUserTokenView { token_type: self.token_type@, access_token: self.access_token@ }
    }
}

impl Clone for SlackUserToken {
    fn clone(&self) -> (copy: Self)
        ensures
            copy == *self,
    {
        SlackUserToken {
            token_type: self.token_type.clone(),
            access_token: self.access_token.clone(),
        }
    }
}

/// The token that Slack returns: a bot token for a team, the team's
/// incoming webhook if it has one, and the end user's token if the user
/// granted one.
#[derive(Debug, PartialEq, Eq)]
pub struct SlackToken {
    pub token_type: String,
    pub access_token: String,
    pub team_id: String,
    pub team_name: String,
    pub incoming_webhook_url: Option<String>,
    pub authed_user: Option<SlackUserToken>,
}

/// Mathematical value of a [`SlackToken`].
pub struct SlackTokenView {
    pub token_type: Seq<char>,
    pub access_token: Seq<char>,
    pub team_id: Seq<char>,
    pub team_name: Seq<char>,
    pub incoming_webhook_url: Option<Seq<char>>,
    pub authed_user: Option<SlackUserTokenView>,
}

impl View for SlackToken {
    type V = SlackTokenView;

    open spec fn view(&self) -> SlackTokenView {
        SlackTokenView {
            token_type: self.token_type@,
            access_token: self.access_token@,
            team_id: self.team_id@,
            team_name: self.team_name@,
            incoming_webhook_url: text_view(self.incoming_webhook_url),
            authed_user: match self.authed_user {
                Some(u) => Some(u@),
                None => None,
            },
        }
    }
}

impl Clone for SlackToken {
    fn clone(&self) -> (copy: Self)
        ensures
            copy == *self,
    {
        SlackToken {
            token_type: self.token_type.clone(),
            access_token: self.access_token.clone(),
            team_id: self.team_id.clone(),
            team_name: self.team_name.clone(),
            incoming_webhook_url: cloned_text(&self.incoming_webhook_url),
            authed_user: match &self.authed_user {
                Some(u) => Some(u.clone()),
                None => None,
            },
        }
    }
}

/// What a provider returned for an authorization code, together with what
/// its identity call said of the account that granted it.
#[derive(Debug, PartialEq, Eq)]
#[allow(inconsistent_fields)]
pub enum RawProviderToken {
    /// Google: the hosted domain names the tenant directly.
    Google { token: AccessToken, hosted_domain: String, email: String },
    /// MailChimp: account metadata with the API endpoint of the account.
    MailChimp { token: AccessToken, login_email: String, account_name: String, api_endpoint: String },
    /// Gusto: the current user, and the first company that the user
    /// administers payroll for, if any.
    Gusto { token: AccessToken, email: String, payroll_company_id: Option<String> },
    /// Zoom: the current user and the user's company.
    Zoom { token: AccessToken, email: String, company: String },
    /// Ramp: the address of the first user of the business, if it has one.
    Ramp { token: AccessToken, first_user_email: Option<String> },
    /// Slack: a team-scoped token and the current user's address.
    Slack { token: SlackToken, email: String },
}

/// Mathematical value of a [`RawProviderToken`].
#[allow(inconsistent_fields)]
pub enum RawProviderTokenView {
    Google { token: AccessTokenView, hosted_domain: Seq<char>, email: Seq<char> },
    MailChimp {
        token: AccessTokenView,
        login_email: Seq<char>,
        account_name: Seq<char>,
        api_endpoint: Seq<char>,
    },
    Gusto { token: AccessTokenView, email: Seq<char>, payroll_company_id: Option<Seq<char>> },
    Zoom { token: AccessTokenView, email: Seq<char>, company: Seq<char> },
    Ramp { token: AccessTokenView, first_user_email: Option<Seq<char>> },
    Slack { token: SlackTokenView, email: Seq<char> },
}

impl View for RawProviderToken {
    type V = RawProviderTokenView;

    open spec fn view(&self) -> RawProviderTokenView {
        match self {
            RawProviderToken::Google { token, hosted_domain, email } => RawProviderTokenView::Google {
                token: token@,
                hosted_domain: hosted_domain@,
                email: email@,
            },
            RawProviderToken::MailChimp {
                token,
                login_email,
                account_name,
                api_endpoint,
            } => RawProviderTokenView::MailChimp {
                token: token@,
                login_email: login_email@,
                account_name: account_name@,
                api_endpoint: api_endpoint@,
            },
            RawProviderToken::Gusto { token, email, payroll_company_id } => RawProviderTokenView::Gusto {
                token: token@,
                email: email@,
                payroll_company_id: text_view(*payroll_company_id),
            },
            RawProviderToken::Zoom { token, email, company } => RawProviderTokenView::Zoom {
                token: token@,
                email: email@,
                company: company@,
            },
            RawProviderToken::Ramp { token, first_user_email } => RawProviderTokenView::Ramp {
                token: token@,
                first_user_email: text_view(*first_user_email),
            },
            RawProviderToken::Slack { token, email } => RawProviderTokenView::Slack {
                token: token@,
                email: email@,
            },
        }
    }
}

impl Clone for RawProviderToken {
    fn clone(&self) -> (copy: Self)
        ensures
            copy == *self,
    {
        match self {
            RawProviderToken::Google { token, hosted_domain, email } => RawProviderToken::Google {
                token: token.clone(),
                hosted_domain: hosted_domain.clone(),
                email: email.clone(),
            },
            RawProviderToken::MailChimp {
                token,
                login_email,
                account_name,
                api_endpoint,
            } => RawProviderToken::MailChimp {
                token: token.clone(),
                login_email: login_email.clone(),
                account_name: account_name.clone(),
                api_endpoint: api_endpoint.clone(),
            },
            RawProviderToken::Gusto { token, email, payroll_company_id } => RawProviderToken::Gusto {
                token: token.clone(),
                email: email.clone(),
                payroll_company_id: cloned_text(payroll_company_id),
            },
            RawProviderToken::Zoom { token, email, company } => RawProviderToken::Zoom {
                token: token.clone(),
                email: email.clone(),
                company: company.clone(),
            },
            RawProviderToken::Ramp { token, first_user_email } => RawProviderToken::Ramp {
                token: token.clone(),
                first_user_email: cloned_text(first_user_email),
            },
            RawProviderToken::Slack { token, email } => RawProviderToken::Slack {
                token: token.clone(),
                email: email.clone(),
            },
        }
    }
}

impl RawProviderTokenView {
    /// The provider that the response came from.
    pub open spec fn provider(self) -> Provider {
        match self {
            RawProviderTokenView::Google { .. } => Provider::Google,
            RawProviderTokenView::MailChimp { .. } => Provider::MailChimp,
            RawProviderTokenView::Gusto { .. } => Provider::Gusto,
            RawProviderTokenView::Zoom { .. } => Provider::Zoom,
            RawProviderTokenView::Ramp { .. } => Provider::Ramp,
            RawProviderTokenView::Slack { .. } => Provider::Slack,
        }
    }

    /// The identifier under which the tenant is looked up. Google names
    /// the domain itself; for every other provider it is the domain of an
    /// e-mail address, and empty where the response holds no address.
    pub open spec fn tenant_identifier(self) -> Seq<char> {
        match self {
            RawProviderTokenView::Google { hosted_domain, .. } => hosted_domain,
            RawProviderTokenView::MailChimp { login_email, .. } => domain_of(login_email),
            RawProviderTokenView::Gusto { email, .. } => domain_of(email),
            RawProviderTokenView::Zoom { email, .. } => domain_of(email),
            RawProviderTokenView::Ramp { first_user_email, .. } => match first_user_email {
                Some(email) => domain_of(email),
                None => Seq::empty(),
            },
            RawProviderTokenView::Slack { email, .. } => domain_of(email),
        }
    }
}

/// What a provider hands back for an authorization code, before it has
/// said whose token it is.
#[derive(Debug, PartialEq, Eq)]
#[allow(inconsistent_fields)]
pub enum Grant {
    /// An ordinary access token.
    Token { token: AccessToken },
    /// The token of a Slack team.
    Team { token: SlackToken },
}

/// Mathematical value of a [`Grant`].
#[allow(inconsistent_fields)]
pub enum GrantView {
    Token { token: AccessTokenView },
    Team { token: SlackTokenView },
}

impl View for Grant {
    type V = GrantView;

    open spec fn view(&self) -> GrantView {
        match self {
            Grant::Token { token } => GrantView::Token { token: token@ },
            Grant::Team { token } => GrantView::Team { token: token@ },
        }
    }
}

impl Clone for Grant {
    fn clone(&self) -> (copy: Self)
        ensures
            copy == *self,
    {
        match self {
            Grant::Token { token } => Grant::Token { token: token.clone() },
            Grant::Team { token } => Grant::Team { token: token.clone() },
        }
    }
}

impl GrantView {
    /// Whether the grant has the shape that `provider` issues: a team
    /// token from Slack, an ordinary one from any other.
    pub open spec fn fits(self, provider: Provider) -> bool {
        (self is Team) == (provider == Provider::Slack)
    }

    /// The access token with which the provider is asked whose grant it
    /// is.
    pub open spec fn access_token(self) -> Seq<char> {
        match self {
            GrantView::Token { token } => token.access_token,
            GrantView::Team { token } => token.access_token,
        }
    }
}

impl Grant {
    /// Whether the grant has the shape that `provider` issues.
    pub fn fits(&self, provider: Provider) -> (fitting: bool)
        ensures
            fitting == self@.fits(provider),
    {
        match self {
            Grant::Token { .. } => provider != Provider::Slack,
            Grant::Team { .. } => provider == Provider::Slack,
        }
    }

    /// The access token with which the provider is asked whose grant it
    /// is.
    pub fn access_token(&self) -> (access_token: String)
        ensures
            access_token@ == self@.access_token(),
    {
        match self {
            Grant::Token { token } => token.access_token.clone(),
            Grant::Team { token } => token.access_token.clone(),
        }
    }
}

/// What a provider says of the account that a token was granted by.
#[derive(Debug, PartialEq, Eq)]
pub enum Identity {
    /// Google: the hosted domain and the address of the user.
    Google { hosted_domain: String, email: String },
    /// MailChimp: the metadata of the account.
    MailChimp { login_email: String, account_name: String, api_endpoint: String },
    /// Gusto: the current user, and the first company that the user
    /// administers payroll for, if any.
    Gusto { email: String, payroll_company_id: Option<String> },
    /// Zoom: the current user and the user's company.
    Zoom { email: String, company: String },
    /// Ramp: the address of the first user of the business, if it has
    /// one.
    Ramp { first_user_email: Option<String> },
    /// Slack: the address of the current user.
    Slack { email: String },
}

/// Mathematical value of an [`Identity`].
pub enum IdentityView {
    Google { hosted_domain: Seq<char>, email: Seq<char> },
    MailChimp { login_email: Seq<char>, account_name: Seq<char>, api_endpoint: Seq<char> },
    Gusto { email: Seq<char>, payroll_company_id: Option<Seq<char>> },
    Zoom { email: Seq<char>, company: Seq<char> },
    Ramp { first_user_email: Option<Seq<char>> },
    Slack { email: Seq<char> },
}

impl View for Identity {
    type V = IdentityView;

    open spec fn view(&self) -> IdentityView {
        match self {
            Identity::Google { hosted_domain, email } => IdentityView::Google {
                hosted_domain: hosted_domain@,
                email: email@,
            },
            Identity::MailChimp { login_email, account_name, api_endpoint } => IdentityView::MailChimp {
                login_email: login_email@,
                account_name: account_name@,
                api_endpoint: api_endpoint@,
            },
            Identity::Gusto { email, payroll_company_id } => IdentityView::Gusto {
                email: email@,
                payroll_company_id: text_view(*payroll_company_id),
            },
            Identity::Zoom { email, company } => IdentityView::Zoom {
                email: email@,
                company: company@,
            },
            Identity::Ramp { first_user_email } => IdentityView::Ramp {
                first_user_email: text_view(*first_user_email),
            },
            Identity::Slack { email } => IdentityView::Slack { email: email@ },
        }
    }
}

/// The response that a grant and an identity of `provider` make up, if
/// both are of the shape that `provider` gives.
pub open spec fn assembled(provider: Provider, grant: GrantView, identity: IdentityView) -> Option<
    RawProviderTokenView,
> {
    match (provider, grant, identity) {
        (
            Provider::Google,
            GrantView::Token { token },
            IdentityView::Google { hosted_domain, email },
        ) => Some(RawProviderTokenView::Google { token, hosted_domain, email }),
        (
            Provider::MailChimp,
            GrantView::Token { token },
            IdentityView::MailChimp { login_email, account_name, api_endpoint },
        ) => Some(RawProviderTokenView::MailChimp { token, login_email, account_name, api_endpoint }),
        (
            Provider::Gusto,
            GrantView::Token { token },
            IdentityView::Gusto { email, payroll_company_id },
        ) => Some(RawProviderTokenView::Gusto { token, email, payroll_company_id }),
        (Provider::Zoom, GrantView::Token { token }, IdentityView::Zoom { email, company }) => Some(
            RawProviderTokenView::Zoom { token, email, company },
        ),
        (Provider::Ramp, GrantView::Token { token }, IdentityView::Ramp { first_user_email }) => Some(
            RawProviderTokenView::Ramp { token, first_user_email },
        ),
        (Provider::Slack, GrantView::Team { token }, IdentityView::Slack { email }) => Some(
            RawProviderTokenView::Slack { token, email },
        ),
        _ => None,
    }
}

/// A response that is made up comes from the provider it was made up
/// for, of a grant that fits the provider.
pub proof fn lemma_assembled_for_its_provider(
    provider: Provider,
    grant: GrantView,
    identity: IdentityView,
)
    ensures
        assembled(provider, grant, identity) matches Some(raw) ==> raw.provider() == provider
            && grant.fits(provider),
{
}

/// Makes up the response of `provider` from its grant and what it said of
/// the account. See [`assembled`].
pub fn assemble(provider: Provider, grant: Grant, identity: Identity) -> (raw: Option<RawProviderToken>)
    ensures
        match raw {
            Some(r) => assembled(provider, grant@, identity@) == Some(r@),
            None => assembled(provider, grant@, identity@) is None,
        },
{
    match (provider, grant, identity) {
        (Provider::Google, Grant::Token { token }, Identity::Google { hosted_domain, email }) => Some(
            RawProviderToken::Google { token, hosted_domain, email },
        ),
        (
            Provider::MailChimp,
            Grant::Token { token },
            Identity::MailChimp { login_email, account_name, api_endpoint },
        ) => Some(RawProviderToken::MailChimp { token, login_email, account_name, api_endpoint }),
        (
            Provider::Gusto,
            Grant::Token { token },
            Identity::Gusto { email, payroll_company_id },
        ) => Some(RawProviderToken::Gusto { token, email, payroll_company_id }),
        (Provider::Zoom, Grant::Token { token }, Identity::Zoom { email, company }) => Some(
            RawProviderToken::Zoom { token, email, company },
        ),
        (Provider::Ramp, Grant::Token { token }, Identity::Ramp { first_user_email }) => Some(
            RawProviderToken::Ramp { token, first_user_email },
        ),
        (Provider::Slack, Grant::Team { token }, Identity::Slack { email }) => Some(
            RawProviderToken::Slack { token, email },
        ),
        _ => None,
    }
}

/// A lifetime as the credential keeps it: the low 32 bits of what the
/// provider stated.
pub open spec fn stored_lifetime(seconds: int) -> int {
    (seconds as i32) as int
}

/// The credential made of an ordinary access token.
pub open spec fn issued(
    provider: Provider,
    token: AccessTokenView,
    external_account_id: Seq<char>,
    user_email: Seq<char>,
    endpoint: Seq<char>,
    tenant_id: int,
    now: int,
) -> CredentialView {
    CredentialView {
        product: product_name(provider),
        tenant_id,
        token_type: token.token_type,
        access_token: token.access_token,
        refresh_token: token.refresh_token,
        expires_in: stored_lifetime(token.expires_in),
        refresh_expires_in: stored_lifetime(token.refresh_token_expires_in),
        expires_at: expiry_of(now, stored_lifetime(token.expires_in)),
        refresh_expires_at: expiry_of(now, stored_lifetime(token.refresh_token_expires_in)),
        endpoint,
        external_account_id,
        external_account_name: Seq::empty(),
        user_email,
        last_updated_at: now,
        managing_organization: MANAGING_ORGANIZATION as int,
    }
}

/// The credential made of one of the tokens of a Slack response. Slack
/// tokens carry no lifetime and no refresh token; the account is the team.
pub open spec fn issued_by_slack(
    token: SlackTokenView,
    token_type: Seq<char>,
    access_token: Seq<char>,
    user_email: Seq<char>,
    tenant_id: int,
    now: int,
) -> CredentialView {
    CredentialView {
        product: product_name(Provider::Slack),
        tenant_id,
        token_type,
        access_token,
        refresh_token: Seq::empty(),
        expires_in: 0,
        refresh_expires_in: 0,
        expires_at: None,
        refresh_expires_at: None,
        endpoint: text_or_empty(token.incoming_webhook_url),
        external_account_id: token.team_id,
        external_account_name: token.team_name,
        user_email,
        last_updated_at: now,
        managing_organization: MANAGING_ORGANIZATION as int,
    }
}

/// The credentials that a provider's response amounts to for the tenant
/// `tenant_id` at the instant `now`: one, or two where Slack returned a
/// token of the end user beside the team's.
pub open spec fn normalized(raw: RawProviderTokenView, tenant_id: int, now: int) -> Seq<
    CredentialView,
> {
    match raw {
        RawProviderTokenView::Google { token, hosted_domain, email } => seq![
            issued(Provider::Google, token, hosted_domain, email, Seq::empty(), tenant_id, now),
        ],
        RawProviderTokenView::MailChimp { token, login_email, account_name, api_endpoint } => seq![
            issued(Provider::MailChimp, token, account_name, login_email, api_endpoint, tenant_id, now),
        ],
        RawProviderTokenView::Gusto { token, email, payroll_company_id } => seq![
            issued(
                Provider::Gusto,
                token,
                text_or_empty(payroll_company_id),
                email,
                Seq::empty(),
                tenant_id,
                now,
            ),
        ],
        RawProviderTokenView::Zoom { token, email, company } => seq![
            issued(Provider::Zoom, token, company, email, Seq::empty(), tenant_id, now),
        ],
        RawProviderTokenView::Ramp { token, .. } => seq![
            issued(Provider::Ramp, token, Seq::empty(), Seq::empty(), Seq::empty(), tenant_id, now),
        ],
        RawProviderTokenView::Slack { token, email } => {
            let team = issued_by_slack(
                token,
                token.token_type,
                token.access_token,
                email,
                tenant_id,
                now,
            );
            match token.authed_user {
                Some(user) => seq![
                    team,
                    issued_by_slack(token, user.token_type, user.access_token, email, tenant_id, now),
                ],
                None => seq![team],
            }
        },
    }
}

/// Views of the credentials held by `credentials`, in order.
pub open spec fn credential_views(credentials: Seq<Credential>) -> Seq<CredentialView> {
    Seq::new(credentials.len(), |i: int| credentials[i]@)
}

/// Every response gives one credential, or two where it is Slack's with a
/// token of the end user. Each belongs to the tenant it was normalized
/// for, bears its provider's name, and is owned by the managing
/// organization, whatever the response holds.
pub proof fn lemma_normalized_shape(raw: RawProviderTokenView, tenant_id: int, now: int)
    ensures
        normalized(raw, tenant_id, now).len() == if raw matches RawProviderTokenView::Slack {
            token,
            ..
        } && token.authed_user is Some {
            2nat
        } else {
            1nat
        },
        forall|i: int|
            0 <= i < normalized(raw, tenant_id, now).len() ==> {
                let c = #[trigger] normalized(raw, tenant_id, now)[i];
                &&& c.managing_organization == MANAGING_ORGANIZATION
                &&& c.tenant_id == tenant_id
                &&& c.product == product_name(raw.provider())
                &&& c.last_updated_at == now
            },
{
}

/// The two credentials of a Slack response are stored under different
/// keys exactly when their token types differ.
pub proof fn lemma_slack_keys(raw: RawProviderTokenView, tenant_id: int, now: int)
    requires
        raw matches RawProviderTokenView::Slack { token, .. } && token.authed_user is Some,
    ensures
        (normalized(raw, tenant_id, now)[0].key() != normalized(raw, tenant_id, now)[1].key()) <==> (
        raw->Slack_token.token_type != raw->Slack_token.authed_user->0.token_type),
{
}

fn issue(
    provider: Provider,
    token: &AccessToken,
    external_account_id: String,
    user_email: String,
    endpoint: String,
    tenant_id: i32,
    now: i64,
) -> (credential: Credential)
    ensures
        credential@ == issued(
            provider,
            token@,
            external_account_id@,
            user_email@,
            endpoint@,
            tenant_id as int,
            now as int,
        ),
{
    let expires_in = #[verifier::truncate] (token.expires_in as i32);
    let refresh_expires_in = #[verifier::truncate] (token.refresh_token_expires_in as i32);
    Credential {
        product: provider.product(),
        tenant_id,
        token_type: token.token_type.clone(),
        access_token: token.access_token.clone(),
        refresh_token: token.refresh_token.clone(),
        expires_in,
        refresh_expires_in,
        expires_at: expiry(now, expires_in),
        refresh_expires_at: expiry(now, refresh_expires_in),
        endpoint,
        external_account_id,
        external_account_name: String::new(),
        user_email,
        last_updated_at: now,
        managing_organization: MANAGING_ORGANIZATION,
    }
}

fn issue_by_slack(
    token: &SlackToken,
    token_type: &String,
    access_token: &String,
    user_email: &String,
    tenant_id: i32,
    now: i64,
) -> (credential: Credential)
    ensures
        credential@ == issued_by_slack(
            token@,
            token_type@,
            access_token@,
            user_email@,
            tenant_id as int,
            now as int,
        ),
{
    Credential {
        product: Provider::Slack.product(),
        tenant_id,
        token_type: token_type.clone(),
        access_token: access_token.clone(),
        refresh_token: String::new(),
        expires_in: 0,
        refresh_expires_in: 0,
        expires_at: None,
        refresh_expires_at: None,
        endpoint: cloned_or_empty(&token.incoming_webhook_url),
        external_account_id: token.team_id.clone(),
        external_account_name: token.team_name.clone(),
        user_email: user_email.clone(),
        last_updated_at: now,
        managing_organization: MANAGING_ORGANIZATION,
    }
}

impl RawProviderToken {
    /// The provider that the response came from.
    pub fn provider(&self) -> (provider: Provider)
        ensures
            provider == self@.provider(),
    {
        match self {
            RawProviderToken::Google { .. } => Provider::Google,
            RawProviderToken::MailChimp { .. } => Provider::MailChimp,
            RawProviderToken::Gusto { .. } => Provider::Gusto,
            RawProviderToken::Zoom { .. } => Provider::Zoom,
            RawProviderToken::Ramp { .. } => Provider::Ramp,
            RawProviderToken::Slack { .. } => Provider::Slack,
        }
    }

    /// The identifier under which the tenant of this response is looked
    /// up.
    pub fn tenant_identifier(&self) -> (identifier: String)
        ensures
            identifier@ == self@.tenant_identifier(),
    {
        match self {
            RawProviderToken::Google { hosted_domain, .. } => hosted_domain.clone(),
            RawProviderToken::MailChimp { login_email, .. } => email_domain(login_email.as_str()),
            RawProviderToken::Gusto { email, .. } => email_domain(email.as_str()),
            RawProviderToken::Zoom { email, .. } => email_domain(email.as_str()),
            RawProviderToken::Ramp { first_user_email, .. } => match first_user_email {
                Some(email) => email_domain(email.as_str()),
                None => String::new(),
            },
            RawProviderToken::Slack { email, .. } => email_domain(email.as_str()),
        }
    }
}

/// Turns a provider's response into the credentials of the tenant
/// `tenant_id`, stamped with the instant `now`.
pub fn normalize(raw: &RawProviderToken, tenant_id: i32, now: i64) -> (credentials: Vec<Credential>)
    ensures
        credential_views(credentials@) == normalized(raw@, tenant_id as int, now as int),
{
    let mut credentials: Vec<Credential> = Vec::new();
    match raw {
        RawProviderToken::Google { token, hosted_domain, email } => {
            credentials.push(
                issue(
                    Provider::Google,
                    token,
                    hosted_domain.clone(),
                    email.clone(),
                    String::new(),
                    tenant_id,
                    now,
                ),
            );
        },
        RawProviderToken::MailChimp { token, login_email, account_name, api_endpoint } => {
            credentials.push(
                issue(
                    Provider::MailChimp,
                    token,
                    account_name.clone(),
                    login_email.clone(),
                    api_endpoint.clone(),
                    tenant_id,
                    now,
                ),
            );
        },
        RawProviderToken::Gusto { token, email, payroll_company_id } => {
            credentials.push(
                issue(
                    Provider::Gusto,
                    token,
                    cloned_or_empty(payroll_company_id),
                    email.clone(),
                    String::new(),
                    tenant_id,
                    now,
                ),
            );
        },
        RawProviderToken::Zoom { token, email, company } => {
            credentials.push(
                issue(
                    Provider::Zoom,
                    token,
                    company.clone(),
                    email.clone(),
                    String::new(),
                    tenant_id,
                    now,
                ),
            );
        },
        RawProviderToken::Ramp { token, .. } => {
            credentials.push(
                issue(
                    Provider::Ramp,
                    token,
                    String::new(),
                    String::new(),
                    String::new(),
                    tenant_id,
                    now,
                ),
            );
        },
        RawProviderToken::Slack { token, email } => {
            credentials.push(
                issue_by_slack(token, &token.token_type, &token.access_token, email, tenant_id, now),
            );
            match &token.authed_user {
                Some(user) => {
                    credentials.push(
                        issue_by_slack(token, &user.token_type, &user.access_token, email, tenant_id, now),
                    );
                },
                None => {},
            }
        },
    }
    credentials
}

} // verus!
