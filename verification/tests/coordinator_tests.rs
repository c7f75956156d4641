use webhooky::coordinator::TokenExchangeCoordinator;
use webhooky::credential::Credential;
use webhooky::exchange::{ExchangeError, ExchangeReport};
use webhooky::payloads::AuthCallback;
use webhooky::provider::{
    assemble, normalize, AccessToken, Grant, Identity, Provider, RawProviderToken, SlackToken,
    SlackUserToken,
};
use webhooky::store::CredentialStore;
use webhooky::tenant::{Tenant, TenantDirectory};

fn callback() -> AuthCallback {
    AuthCallback { code: "code".to_string(), state: "state".to_string(), realm_id: String::new() }
}

fn directory() -> TenantDirectory {
    TenantDirectory::new(vec![
        Tenant { id: 1, name: "Oxide".to_string(), domain: "oxide.computer".to_string() },
        Tenant { id: 2, name: "Acme".to_string(), domain: "acme.example".to_string() },
    ])
}

fn token(access_token: &str) -> AccessToken {
    AccessToken {
        token_type: "Bearer".to_string(),
        access_token: access_token.to_string(),
        expires_in: 3600,
        refresh_token: "refresh".to_string(),
        refresh_token_expires_in: 7200,
    }
}

fn gusto(email: &str, access_token: &str) -> RawProviderToken {
    RawProviderToken::Gusto {
        token: token(access_token),
        email: email.to_string(),
        payroll_company_id: Some("c-1".to_string()),
    }
}

fn slack(email: &str, user_type: Option<&str>) -> RawProviderToken {
    RawProviderToken::Slack {
        token: SlackToken {
            token_type: "bot".to_string(),
            access_token: "xoxb".to_string(),
            team_id: "T1".to_string(),
            team_name: "Acme".to_string(),
            incoming_webhook_url: Some("https://hooks.example/x".to_string()),
            authed_user: user_type.map(|t| SlackUserToken {
                token_type: t.to_string(),
                access_token: "xoxp".to_string(),
            }),
        },
        email: email.to_string(),
    }
}

fn all_responses(email: &str) -> Vec<RawProviderToken> {
    vec![
        RawProviderToken::Google {
            token: token("g"),
            hosted_domain: email.split('@').nth(1).unwrap_or("").to_string(),
            email: email.to_string(),
        },
        RawProviderToken::MailChimp {
            token: token("m"),
            login_email: email.to_string(),
            account_name: "news".to_string(),
            api_endpoint: "https://us1.api.example".to_string(),
        },
        gusto(email, "u"),
        RawProviderToken::Zoom { token: token("z"), email: email.to_string(), company: "Acme".to_string() },
        RawProviderToken::Ramp { token: token("r"), first_user_email: Some(email.to_string()) },
        slack(email, Some("user")),
    ]
}

fn answers(raw: RawProviderToken) -> (Grant, Identity) {
    match raw {
        RawProviderToken::Google { token, hosted_domain, email } => {
            (Grant::Token { token }, Identity::Google { hosted_domain, email })
        }
        RawProviderToken::MailChimp { token, login_email, account_name, api_endpoint } => {
            (Grant::Token { token }, Identity::MailChimp { login_email, account_name, api_endpoint })
        }
        RawProviderToken::Gusto { token, email, payroll_company_id } => {
            (Grant::Token { token }, Identity::Gusto { email, payroll_company_id })
        }
        RawProviderToken::Zoom { token, email, company } => {
            (Grant::Token { token }, Identity::Zoom { email, company })
        }
        RawProviderToken::Ramp { token, first_user_email } => {
            (Grant::Token { token }, Identity::Ramp { first_user_email })
        }
        RawProviderToken::Slack { token, email } => (Grant::Team { token }, Identity::Slack { email }),
    }
}

fn exchange(
    provider: Provider,
    raw: RawProviderToken,
    tenants: &TenantDirectory,
    primary: &mut CredentialStore,
    mirror: &mut CredentialStore,
    now: i64,
) -> Result<ExchangeReport, ExchangeError> {
    let (grant, identity) = answers(raw);
    TokenExchangeCoordinator::new(provider).handle(
        callback(),
        Some(grant),
        Some(identity),
        tenants,
        primary,
        mirror,
        now,
    )
}

fn probe(product: &str, tenant_id: i32, token_type: &str) -> Credential {
    Credential {
        product: product.to_string(),
        tenant_id,
        token_type: token_type.to_string(),
        access_token: String::new(),
        refresh_token: String::new(),
        expires_in: 0,
        refresh_expires_in: 0,
        expires_at: None,
        refresh_expires_at: None,
        endpoint: String::new(),
        external_account_id: String::new(),
        external_account_name: String::new(),
        user_email: String::new(),
        last_updated_at: 0,
        managing_organization: 1,
    }
}

#[test]
fn successful_exchange_writes_one_row_to_each_store() {
    let mut primary = CredentialStore::new(8);
    let mut mirror = CredentialStore::new(8);
    let raw = gusto("cy@acme.example", "first");
    let report = exchange(Provider::Gusto, raw.clone(), &directory(), &mut primary, &mut mirror, 500)
        .unwrap();
    let wanted = normalize(&raw, 2, 500).remove(0);
    assert_eq!(report.stored.len(), 1);
    assert_eq!(report.stored[0].id, 1);
    assert_eq!(report.stored[0].credential, wanted);
    assert_eq!(report.unmirrored, Vec::<u64>::new());
    assert_eq!(primary.len(), 1);
    assert_eq!(mirror.len(), 1);
    assert_eq!(primary.find(&probe("gusto", 2, "Bearer")).unwrap().credential, wanted);
    assert_eq!(mirror.find(&probe("gusto", 2, "Bearer")).unwrap().credential, wanted);
}

#[test]
fn every_provider_yields_its_rows_under_the_managing_organization() {
    for raw in all_responses("pat@acme.example") {
        let mut primary = CredentialStore::new(8);
        let mut mirror = CredentialStore::new(8);
        let provider = raw.provider();
        let report = exchange(provider, raw, &directory(), &mut primary, &mut mirror, 500)
            .unwrap();
        let wanted = if provider == Provider::Slack { 2 } else { 1 };
        assert_eq!(report.stored.len(), wanted);
        assert_eq!(primary.len(), wanted);
        assert_eq!(mirror.len(), wanted);
        for row in report.stored.iter() {
            assert_eq!(row.credential.managing_organization, 1);
            assert_eq!(row.credential.tenant_id, 2);
            assert_eq!(row.credential.product, provider.product());
            assert_eq!(primary.find(&row.credential), Some(row.clone()));
        }
    }
}

#[test]
fn slack_exchange_writes_two_rows_that_differ_in_token_type() {
    let mut primary = CredentialStore::new(8);
    let mut mirror = CredentialStore::new(8);
    let report = exchange(Provider::Slack, slack("fay@acme.example", Some("user")), &directory(), &mut primary, &mut mirror, 500)
        .unwrap();
    assert_eq!(report.stored.len(), 2);
    assert_eq!(report.stored[0].credential.token_type, "bot");
    assert_eq!(report.stored[1].credential.token_type, "user");
    assert_eq!(report.stored[0].credential.tenant_id, report.stored[1].credential.tenant_id);
    assert_eq!(primary.len(), 2);
    assert_eq!(primary.find(&probe("slack", 2, "bot")).unwrap().credential.access_token, "xoxb");
    assert_eq!(primary.find(&probe("slack", 2, "user")).unwrap().credential.access_token, "xoxp");
}

#[test]
fn slack_tokens_of_one_type_share_one_row() {
    let mut primary = CredentialStore::new(8);
    let mut mirror = CredentialStore::new(8);
    let report = exchange(Provider::Slack, slack("fay@acme.example", Some("bot")), &directory(), &mut primary, &mut mirror, 500)
        .unwrap();
    assert_eq!(report.stored.len(), 2);
    assert_eq!(report.stored[0].id, report.stored[1].id);
    assert_eq!(primary.len(), 1);
    assert_eq!(primary.find(&probe("slack", 2, "bot")).unwrap().credential.access_token, "xoxp");
}

#[test]
fn repeated_exchange_keeps_one_row_with_the_values_of_the_second() {
    let mut primary = CredentialStore::new(8);
    let mut mirror = CredentialStore::new(8);
    let provider = Provider::Gusto;
    let first = exchange(provider, gusto("cy@acme.example", "first"), &directory(), &mut primary, &mut mirror, 500)
        .unwrap();
    let second = exchange(provider, gusto("cy@acme.example", "second"), &directory(), &mut primary, &mut mirror, 900)
        .unwrap();
    assert_eq!(primary.len(), 1);
    assert_eq!(mirror.len(), 1);
    assert_eq!(first.stored[0].id, second.stored[0].id);
    let row = primary.find(&probe("gusto", 2, "Bearer")).unwrap();
    assert_eq!(row.credential.access_token, "second");
    assert_eq!(row.credential.last_updated_at, 900);
    assert_eq!(row.credential.expires_at, Some(4500));
    assert_eq!(mirror.find(&probe("gusto", 2, "Bearer")).unwrap().credential.access_token, "second");
}

#[test]
fn same_exchange_twice_adds_no_row_for_any_provider() {
    for raw in all_responses("pat@acme.example") {
        let mut primary = CredentialStore::new(8);
        let mut mirror = CredentialStore::new(8);
        let provider = raw.provider();
        exchange(provider, raw.clone(), &directory(), &mut primary, &mut mirror, 500)
            .unwrap();
        let rows = primary.len();
        let again = exchange(provider, raw, &directory(), &mut primary, &mut mirror, 600)
            .unwrap();
        assert_eq!(primary.len(), rows);
        assert_eq!(mirror.len(), rows);
        for row in again.stored.iter() {
            assert_eq!(row.credential.last_updated_at, 600);
            assert_eq!(primary.find(&row.credential), Some(row.clone()));
        }
    }
}

#[test]
fn exchanges_of_different_tenants_keep_separate_rows() {
    let mut primary = CredentialStore::new(8);
    let mut mirror = CredentialStore::new(8);
    let provider = Provider::Gusto;
    for email in ["cy@acme.example", "al@oxide.computer"] {
        exchange(provider, gusto(email, email), &directory(), &mut primary, &mut mirror, 500)
            .unwrap();
    }
    assert_eq!(primary.len(), 2);
    assert_eq!(
        primary.find(&probe("gusto", 2, "Bearer")).unwrap().credential.access_token,
        "cy@acme.example"
    );
    assert_eq!(
        primary.find(&probe("gusto", 1, "Bearer")).unwrap().credential.access_token,
        "al@oxide.computer"
    );
}

#[test]
fn unknown_tenant_aborts_without_writing_to_either_store() {
    let mut primary = CredentialStore::new(8);
    let mut mirror = CredentialStore::new(8);
    let outcome = exchange(Provider::Gusto, gusto("cy@nowhere.example", "a"), &directory(), &mut primary, &mut mirror, 500);
    assert_eq!(outcome, Err(ExchangeError::TenantNotFound));
    assert_eq!(primary.len(), 0);
    assert_eq!(mirror.len(), 0);
}

#[test]
fn address_without_at_sign_names_no_tenant() {
    let mut primary = CredentialStore::new(8);
    let mut mirror = CredentialStore::new(8);
    let outcome = exchange(Provider::Gusto, gusto("noatsign", "a"), &directory(), &mut primary, &mut mirror, 500);
    assert_eq!(outcome, Err(ExchangeError::TenantNotFound));
    assert_eq!(primary.len(), 0);
    assert_eq!(mirror.len(), 0);
}

#[test]
fn address_with_two_at_signs_resolves_against_the_middle_part() {
    let tenants = TenantDirectory::new(vec![
        Tenant { id: 5, name: "B".to_string(), domain: "b".to_string() },
        Tenant { id: 6, name: "C".to_string(), domain: "c.com".to_string() },
    ]);
    let mut primary = CredentialStore::new(8);
    let mut mirror = CredentialStore::new(8);
    let report = exchange(Provider::Gusto, gusto("a@b@c.com", "a"), &tenants, &mut primary, &mut mirror, 500)
        .unwrap();
    assert_eq!(report.stored[0].credential.tenant_id, 5);
}

#[test]
fn failed_code_exchange_aborts_without_writing() {
    let (_, identity) = answers(gusto("cy@acme.example", "a"));
    for identity in [Some(identity), None] {
        let mut primary = CredentialStore::new(8);
        let mut mirror = CredentialStore::new(8);
        let outcome = TokenExchangeCoordinator::new(Provider::Gusto).handle(
            callback(),
            None,
            identity,
            &directory(),
            &mut primary,
            &mut mirror,
            500,
        );
        assert_eq!(outcome, Err(ExchangeError::ProviderExchangeFailed));
        assert_eq!(primary.len(), 0);
        assert_eq!(mirror.len(), 0);
    }
}

#[test]
fn failed_identity_lookup_aborts_without_writing() {
    let (grant, _) = answers(gusto("cy@acme.example", "a"));
    let mut primary = CredentialStore::new(8);
    let mut mirror = CredentialStore::new(8);
    let outcome = TokenExchangeCoordinator::new(Provider::Gusto).handle(
        callback(),
        Some(grant),
        None,
        &directory(),
        &mut primary,
        &mut mirror,
        500,
    );
    assert_eq!(outcome, Err(ExchangeError::IdentityLookupFailed));
    assert_eq!(primary.len(), 0);
    assert_eq!(mirror.len(), 0);
}

#[test]
fn identity_of_another_provider_aborts_without_writing() {
    let (grant, _) = answers(gusto("cy@acme.example", "a"));
    let mut primary = CredentialStore::new(8);
    let mut mirror = CredentialStore::new(8);
    let outcome = TokenExchangeCoordinator::new(Provider::Gusto).handle(
        callback(),
        Some(grant),
        Some(Identity::Zoom { email: "cy@acme.example".to_string(), company: String::new() }),
        &directory(),
        &mut primary,
        &mut mirror,
        500,
    );
    assert_eq!(outcome, Err(ExchangeError::IdentityLookupFailed));
    assert_eq!(primary.len(), 0);
    assert_eq!(mirror.len(), 0);
}

#[test]
fn responses_are_assembled_from_grant_and_identity_of_one_provider() {
    for raw in all_responses("pat@acme.example") {
        let provider = raw.provider();
        let (grant, identity) = answers(raw.clone());
        assert_eq!(grant.fits(provider), true);
        assert_eq!(grant.fits(Provider::Slack), provider == Provider::Slack);
        assert_eq!(assemble(provider, grant.clone(), identity), Some(raw.clone()));
        let (_, identity) = answers(raw);
        let other = if provider == Provider::Zoom { Provider::Gusto } else { Provider::Zoom };
        assert_eq!(assemble(other, grant, identity), None);
    }
}

#[test]
fn grant_of_another_shape_aborts_without_writing() {
    let mut primary = CredentialStore::new(8);
    let mut mirror = CredentialStore::new(8);
    let outcome = exchange(
        Provider::Slack,
        gusto("cy@acme.example", "a"),
        &directory(),
        &mut primary,
        &mut mirror,
        500,
    );
    assert_eq!(outcome, Err(ExchangeError::ProviderExchangeFailed));
    assert_eq!(primary.len(), 0);
    assert_eq!(mirror.len(), 0);
}

#[test]
fn full_primary_store_fails_the_exchange() {
    let mut primary = CredentialStore::new(0);
    let mut mirror = CredentialStore::new(8);
    let outcome = exchange(Provider::Gusto, gusto("cy@acme.example", "a"), &directory(), &mut primary, &mut mirror, 500);
    assert_eq!(outcome, Err(ExchangeError::PersistenceFailed));
    assert_eq!(primary.len(), 0);
    assert_eq!(mirror.len(), 0);
}

#[test]
fn primary_store_that_fills_up_keeps_what_was_written_before() {
    let mut primary = CredentialStore::new(1);
    let mut mirror = CredentialStore::new(8);
    let outcome = exchange(Provider::Slack, slack("fay@acme.example", Some("user")), &directory(), &mut primary, &mut mirror, 500);
    assert_eq!(outcome, Err(ExchangeError::PersistenceFailed));
    assert_eq!(primary.len(), 1);
    assert_eq!(mirror.len(), 1);
    assert_eq!(primary.find(&probe("slack", 2, "bot")).unwrap().credential.access_token, "xoxb");
}

#[test]
fn failing_mirror_leaves_the_primary_row_and_the_exchange_succeeds() {
    let mut primary = CredentialStore::new(8);
    let mut mirror = CredentialStore::new(0);
    let raw = gusto("cy@acme.example", "fresh");
    let report = exchange(Provider::Gusto, raw.clone(), &directory(), &mut primary, &mut mirror, 500)
        .unwrap();
    assert_eq!(report.stored.len(), 1);
    assert_eq!(report.unmirrored, vec![report.stored[0].id]);
    assert_eq!(mirror.len(), 0);
    assert_eq!(
        primary.find(&probe("gusto", 2, "Bearer")).unwrap().credential,
        normalize(&raw, 2, 500).remove(0)
    );
}

#[test]
fn failing_mirror_does_not_keep_an_update_from_the_primary_store() {
    let mut primary = CredentialStore::new(8);
    let mut mirror = CredentialStore::new(0);
    let provider = Provider::Gusto;
    for (access_token, now) in [("old", 100), ("new", 200)] {
        let report = exchange(provider, gusto("cy@acme.example", access_token), &directory(), &mut primary, &mut mirror, now)
            .unwrap();
        assert_eq!(report.unmirrored, vec![1]);
    }
    let row = primary.find(&probe("gusto", 2, "Bearer")).unwrap();
    assert_eq!(row.credential.access_token, "new");
    assert_eq!(row.credential.last_updated_at, 200);
    assert_eq!(primary.len(), 1);
}

#[test]
fn mirror_that_fails_for_one_of_two_rows_reports_that_row_only() {
    let mut primary = CredentialStore::new(8);
    let mut mirror = CredentialStore::new(1);
    let report = exchange(Provider::Slack, slack("fay@acme.example", Some("user")), &directory(), &mut primary, &mut mirror, 500)
        .unwrap();
    assert_eq!(report.stored.len(), 2);
    assert_eq!(report.unmirrored, vec![report.stored[1].id]);
    assert_eq!(primary.len(), 2);
    assert_eq!(mirror.len(), 1);
}

#[test]
fn primary_store_ends_up_the_same_whatever_the_mirror_does() {
    for raw in all_responses("pat@acme.example") {
        let mut with_mirror = CredentialStore::new(8);
        let mut without_mirror = CredentialStore::new(8);
        let mut working = CredentialStore::new(8);
        let mut failing = CredentialStore::new(0);
        let provider = raw.provider();
        let one = exchange(provider, raw.clone(), &directory(), &mut with_mirror, &mut working, 500)
            .unwrap();
        let other = exchange(provider, raw, &directory(), &mut without_mirror, &mut failing, 500)
            .unwrap();
        assert_eq!(one.stored, other.stored);
        assert_eq!(with_mirror, without_mirror);
    }
}
