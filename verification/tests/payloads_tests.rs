use webhooky::payloads::{
    AirtableRowEvent, ApplicationFileUploadData, AuthCallback, CounterResponse, FunctionPathParams,
    GitHubRateLimit, IncomingEmail, RFDPathParams, UserConsentURL,
};

#[test]
fn fresh_counter_counts_nothing() {
    assert_eq!(CounterResponse::default(), CounterResponse { count: 0 });
}

#[test]
fn fresh_rate_limit_is_empty() {
    assert_eq!(
        GitHubRateLimit::default(),
        GitHubRateLimit { limit: 0, remaining: 0, reset: String::new() }
    );
}

#[test]
fn fresh_row_event_is_empty() {
    assert_eq!(
        AirtableRowEvent::default(),
        AirtableRowEvent { record_id: String::new(), cio_company_id: 0 }
    );
}

#[test]
fn fresh_callback_is_empty() {
    assert_eq!(
        AuthCallback::default(),
        AuthCallback { code: String::new(), state: String::new(), realm_id: String::new() }
    );
}

#[test]
fn fresh_consent_url_is_empty() {
    assert_eq!(UserConsentURL::default(), UserConsentURL { url: String::new() });
}

#[test]
fn fresh_email_is_empty() {
    let email = IncomingEmail::default();
    for text in [
        &email.headers,
        &email.dkim,
        &email.email,
        &email.content_ids,
        &email.to,
        &email.cc,
        &email.html,
        &email.from,
        &email.text,
        &email.sender_ip,
        &email.spam_report,
        &email.envelope,
        &email.attachments,
        &email.subject,
        &email.spam_score,
        &email.attachment_info,
        &email.charsets,
        &email.spf,
    ] {
        assert_eq!(text, "");
    }
}

#[test]
fn fresh_upload_is_empty() {
    let upload = ApplicationFileUploadData::default();
    assert_eq!(upload.cio_company_id, 0);
    for text in [
        &upload.resume,
        &upload.materials,
        &upload.portfolio_pdf_name,
        &upload.email,
        &upload.role,
        &upload.user_name,
        &upload.resume_contents,
        &upload.materials_contents,
        &upload.portfolio_pdf_contents,
    ] {
        assert_eq!(text, "");
    }
}

#[test]
fn cloned_payloads_equal_the_payloads() {
    let callback = AuthCallback {
        code: "c".to_string(),
        state: "s".to_string(),
        realm_id: "r".to_string(),
    };
    assert_eq!(callback.clone(), callback);
    let email = IncomingEmail { subject: "hello".to_string(), ..IncomingEmail::default() };
    assert_eq!(email.clone(), email);
    let upload = ApplicationFileUploadData {
        cio_company_id: 3,
        resume: "cv.pdf".to_string(),
        ..ApplicationFileUploadData::default()
    };
    assert_eq!(upload.clone(), upload);
    let limit = GitHubRateLimit { limit: 5000, remaining: 4999, reset: "soon".to_string() };
    assert_eq!(limit.clone(), limit);
    let row = AirtableRowEvent { record_id: "rec1".to_string(), cio_company_id: 1 };
    assert_eq!(row.clone(), row);
    let counter = CounterResponse { count: 12 };
    assert_eq!(counter.clone(), counter);
    let consent = UserConsentURL { url: "https://x.example".to_string() };
    assert_eq!(consent.clone(), consent);
}

#[test]
fn path_parameters_hold_what_they_are_given() {
    assert_eq!(RFDPathParams { num: 42 }.num, 42);
    assert_eq!(FunctionPathParams { uuid: "9f1c".to_string() }.uuid, "9f1c");
}
