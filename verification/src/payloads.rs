//! Bodies and parameters of the gateway's requests and responses.
//!
//! These are plain records. A fresh record is empty: every text is the
//! empty text and every number is zero.

use vstd::prelude::*;

verus! {

/// The number of products sold.
#[derive(Debug, PartialEq, Eq)]
pub struct CounterResponse {
    pub count: i32,
}

impl Clone for CounterResponse {
    fn clone(&self) -> (copy: Self)
        ensures
            copy == *self,
    {
        CounterResponse {
            count: self.count,
        }
    }
}

impl Default for CounterResponse {
    fn default() -> (fresh: Self)
        ensures
            fresh.count == 0,
    {
        CounterResponse {
            count: 0,
        }
    }
}

/// Path parameters that name a design document by its number.
#[derive(Debug, PartialEq, Eq)]
pub struct RFDPathParams {
    pub num: i32,
}

/// The state of the GitHub rate limit.
#[derive(Debug, PartialEq, Eq)]
pub struct GitHubRateLimit {
    pub limit: u32,
    pub remaining: u32,
    pub reset: String,
}

impl Clone for GitHubRateLimit {
    fn clone(&self) -> (copy: Self)
        ensures
            copy == *self,
    {
        GitHubRateLimit {
            limit: self.limit,
            remaining: self.remaining,
            reset: self.reset.clone(),
        }
    }
}

impl Default for GitHubRateLimit {
    fn default() -> (fresh: Self)
        ensures
            fresh.limit == 0,
            fresh.remaining == 0,
            fresh.reset@ == Seq::<char>::empty(),
    {
        GitHubRateLimit {
            limit: 0,
            remaining: 0,
            reset: String::new(),
        }
    }
}

/// An event on one Airtable row.
#[derive(Debug, PartialEq, Eq)]
pub struct AirtableRowEvent {
    pub record_id: String,
    pub cio_company_id: i32,
}

impl Clone for AirtableRowEvent {
    fn clone(&self) -> (copy: Self)
        ensures
            copy == *self,
    {
        AirtableRowEvent {
            record_id: self.record_id.clone(),
            cio_company_id: self.cio_company_id,
        }
    }
}

impl Default for AirtableRowEvent {
    fn default() -> (fresh: Self)
        ensures
            fresh.record_id@ == Seq::<char>::empty(),
            fresh.cio_company_id == 0,
    {
        AirtableRowEvent {
            record_id: String::new(),
            cio_company_id: 0,
        }
    }
}

/// An e-mail as SendGrid's inbound parse delivers it.
#[derive(Debug, PartialEq, Eq)]
pub struct IncomingEmail {
    pub headers: String,
    pub dkim: String,
    pub email: String,
    pub content_ids: String,
    pub to: String,
    pub cc: String,
    pub html: String,
    pub from: String,
    pub text: String,
    pub sender_ip: String,
    pub spam_report: String,
    pub envelope: String,
    pub attachments: String,
    pub subject: String,
    pub spam_score: String,
    pub attachment_info: String,
    pub charsets: String,
    pub spf: String,
}

impl Clone for IncomingEmail {
    fn clone(&self) -> (copy: Self)
        ensures
            copy == *self,
    {
        IncomingEmail {
            headers: self.headers.clone(),
            dkim: self.dkim.clone(),
            email: self.email.clone(),
            content_ids: self.content_ids.clone(),
            to: self.to.clone(),
            cc: self.cc.clone(),
            html: self.html.clone(),
            from: self.from.clone(),
            text: self.text.clone(),
            sender_ip: self.sender_ip.clone(),
            spam_report: self.spam_report.clone(),
            envelope: self.envelope.clone(),
            attachments: self.attachments.clone(),
            subject: self.subject.clone(),
            spam_score: self.spam_score.clone(),
            attachment_info: self.attachment_info.clone(),
            charsets: self.charsets.clone(),
            spf: self.spf.clone(),
        }
    }
}

impl Default for IncomingEmail {
    fn default() -> (fresh: Self)
        ensures
            fresh.headers@ == Seq::<char>::empty(),
            fresh.dkim@ == Seq::<char>::empty(),
            fresh.email@ == Seq::<char>::empty(),
            fresh.content_ids@ == Seq::<char>::empty(),
            fresh.to@ == Seq::<char>::empty(),
            fresh.cc@ == Seq::<char>::empty(),
            fresh.html@ == Seq::<char>::empty(),
            fresh.from@ == Seq::<char>::empty(),
            fresh.text@ == Seq::<char>::empty(),
            fresh.sender_ip@ == Seq::<char>::empty(),
            fresh.spam_report@ == Seq::<char>::empty(),
            fresh.envelope@ == Seq::<char>::empty(),
            fresh.attachments@ == Seq::<char>::empty(),
            fresh.subject@ == Seq::<char>::empty(),
            fresh.spam_score@ == Seq::<char>::empty(),
            fresh.attachment_info@ == Seq::<char>::empty(),
            fresh.charsets@ == Seq::<char>::empty(),
            fresh.spf@ == Seq::<char>::empty(),
    {
        IncomingEmail {
            headers: String::new(),
            dkim: String::new(),
            email: String::new(),
            content_ids: String::new(),
            to: String::new(),
            cc: String::new(),
            html: String::new(),
            from: String::new(),
            text: String::new(),
            sender_ip: String::new(),
            spam_report: String::new(),
            envelope: String::new(),
            attachments: String::new(),
            subject: String::new(),
            spam_score: String::new(),
            attachment_info: String::new(),
            charsets: String::new(),
            spf: String::new(),
        }
    }
}

/// The files uploaded with a job application.
#[derive(Debug, PartialEq, Eq)]
pub struct ApplicationFileUploadData {
    pub cio_company_id: i32,
    pub resume: String,
    pub materials: String,
    pub portfolio_pdf_name: String,
    pub email: String,
    pub role: String,
    pub user_name: String,
    pub resume_contents: String,
    pub materials_contents: String,
    pub portfolio_pdf_contents: String,
}

impl Clone for ApplicationFileUploadData {
    fn clone(&self) -> (copy: Self)
        ensures
            copy == *self,
    {
        ApplicationFileUploadData {
            cio_company_id: self.cio_company_id,
            resume: self.resume.clone(),
            materials: self.materials.clone(),
            portfolio_pdf_name: self.portfolio_pdf_name.clone(),
            email: self.email.clone(),
            role: self.role.clone(),
            user_name: self.user_name.clone(),
            resume_contents: self.resume_contents.clone(),
            materials_contents: self.materials_contents.clone(),
            portfolio_pdf_contents: self.portfolio_pdf_contents.clone(),
        }
    }
}

impl Default for ApplicationFileUploadData {
    fn default() -> (fresh: Self)
        ensures
            fresh.cio_company_id == 0,
            fresh.resume@ == Seq::<char>::empty(),
            fresh.materials@ == Seq::<char>::empty(),
            fresh.portfolio_pdf_name@ == Seq::<char>::empty(),
            fresh.email@ == Seq::<char>::empty(),
            fresh.role@ == Seq::<char>::empty(),
            fresh.user_name@ == Seq::<char>::empty(),
            fresh.resume_contents@ == Seq::<char>::empty(),
            fresh.materials_contents@ == Seq::<char>::empty(),
            fresh.portfolio_pdf_contents@ == Seq::<char>::empty(),
    {
        ApplicationFileUploadData {
            cio_company_id: 0,
            resume: String::new(),
            materials: String::new(),
            portfolio_pdf_name: String::new(),
            email: String::new(),
            role: String::new(),
            user_name: String::new(),
            resume_contents: String::new(),
            materials_contents: String::new(),
            portfolio_pdf_contents: String::new(),
        }
    }
}

/// The URL at which a user grants consent to a provider.
#[derive(Debug, PartialEq, Eq)]
pub struct UserConsentURL {
    pub url: String,
}

impl Clone for UserConsentURL {
    fn clone(&self) -> (copy: Self)
        ensures
            copy == *self,
    {
        UserConsentURL {
            url: self.url.clone(),
        }
    }
}

impl Default for UserConsentURL {
    fn default() -> (fresh: Self)
        ensures
            fresh.url@ == Seq::<char>::empty(),
    {
        UserConsentURL {
            url: String::new(),
        }
    }
}

/// The query of a provider's callback after consent.
#[derive(Debug, PartialEq, Eq)]
pub struct AuthCallback {
    /// The authorization code to exchange.
    pub code: String,
    /// The state that was passed in through the consent URL.
    pub state: String,
    /// The realm of the account, where the provider names one.
    pub realm_id: String,
}

impl Clone for AuthCallback {
    fn clone(&self) -> (copy: Self)
        ensures
            copy == *self,
    {
        AuthCallback {
            code: self.code.clone(),
            state: self.state.clone(),
            realm_id: self.realm_id.clone(),
        }
    }
}

impl Default for AuthCallback {
    fn default() -> (fresh: Self)
        ensures
            fresh.code@ == Seq::<char>::empty(),
            fresh.state@ == Seq::<char>::empty(),
            fresh.realm_id@ == Seq::<char>::empty(),
    {
        AuthCallback {
            code: String::new(),
            state: String::new(),
            realm_id: String::new(),
        }
    }
}

/// Path parameters that name a job run by its identifier.
#[derive(Debug, PartialEq, Eq)]
pub struct FunctionPathParams {
    /// Identifier of the run.
    pub uuid: String,
}

} // verus!
