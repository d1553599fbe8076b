//! The client of the email service: the request that asks it to send one
//! email, and the reading of its answer.

use crate::domain::subscriber_email::SubscriberEmail;
use std::time::Duration;
use vstd::prelude::*;
use vstd::string::*;

verus! {

/// The path of the email service's endpoint for sending, below its base URL.
pub open spec fn send_path() -> Seq<char> {
    "/api/send/2317403"@
}

/// What stands before the token in the `Authorization` header.
pub open spec fn bearer_prefix() -> Seq<char> {
    "Bearer "@
}

/// Why an email was not dispatched.
#[derive(Debug, Clone, Copy, PartialEq, Eq, Structural)]
pub enum DispatchError {
    /// The email service could not be reached.
    Unreachable,
    /// The email service did not answer before the deadline.
    TimedOut,
    /// The email service answered with a status that is not a success.
    Refused { status: u16 },
}

/// One request to the email service: where to post it, what its body holds,
/// and the deadline after which the dispatch counts as failed.
#[derive(Debug)]
pub struct SendEmailRequest {
    pub url: String,
    pub from: String,
    pub to: String,
    pub subject: String,
    pub html_content: String,
    pub text_content: String,
    pub timeout: Duration,
}

/// A `SendEmailRequest` as contracts see it.
pub struct SendEmailRequestView {
    pub url: Seq<char>,
    pub from: Seq<char>,
    pub to: Seq<char>,
    pub subject: Seq<char>,
    pub html_content: Seq<char>,
    pub text_content: Seq<char>,
    pub timeout: Duration,
}

impl View for SendEmailRequest {
    type V = SendEmailRequestView;

    open spec fn view(&self) -> SendEmailRequestView {
        SendEmailRequestView {
            url: self.url@,
            from: self.from@,
            to: self.to@,
            subject: self.subject@,
            html_content: self.html_content@,
            text_content: self.text_content@,
            timeout: self.timeout,
        }
    }
}

/// The client of the email service: the service's base URL, the address that
/// emails are sent from, and the deadline for each dispatch.
#[derive(Debug)]
pub struct EmailClient {
    pub sender: SubscriberEmail,
    pub base_url: String,
    pub timeout: Duration,
}

/// An `EmailClient` as contracts see it.
pub struct EmailClientView {
    pub sender: Seq<char>,
    pub base_url: Seq<char>,
    pub timeout: Duration,
}

impl View for EmailClient {
    type V = EmailClientView;

    open spec fn view(&self) -> EmailClientView {
        EmailClientView { sender: self.sender@, base_url: self.base_url@, timeout: self.timeout }
    }
}

/// The request by which `client` sends one email.
pub open spec fn email_request(
    client: EmailClientView,
    recipient: Seq<char>,
    subject: Seq<char>,
    html_content: Seq<char>,
    text_content: Seq<char>,
) -> SendEmailRequestView {
    SendEmailRequestView {
        url: client.base_url + send_path(),
        from: client.sender,
        to: recipient,
        subject,
        html_content,
        text_content,
        timeout: client.timeout,
    }
}

/// How the email service's answer with HTTP status `status` is read: a status
/// from 200 to 299 is a success, every other one a refusal.
pub open spec fn delivery_of(status: u16) -> Result<(), DispatchError> {
    if 200 <= status && status <= 299 {
        Ok(())
    } else {
        Err(DispatchError::Refused { status })
    }
}

impl EmailClient {
    /// A client that posts to the email service at `base_url`, sends from
    /// `sender`, and gives each dispatch `timeout` to finish.
    pub fn new(base_url: String, sender: SubscriberEmail, timeout: Duration) -> (client: EmailClient)
        ensures
            client@ == (EmailClientView { sender: sender@, base_url: base_url@, timeout }),
    {
        EmailClient { sender, base_url, timeout }
    }

    /// The request that sends one email to `recipient`. It is posted to the
    /// service's sending endpoint, names the client's sender, and carries the
    /// client's deadline.
    pub fn send_email(
        &self,
        recipient: SubscriberEmail,
        subject: &str,
        html_content: &str,
        text_content: &str,
    ) -> (request: SendEmailRequest)
        ensures
            request@ == email_request(self@, recipient@, subject@, html_content@, text_content@),
    {
        SendEmailRequest {
            url: self.base_url.clone().concat("/api/send/2317403"),
            from: self.sender.as_str().to_owned(),
            to: recipient.as_str().to_owned(),
            subject: subject.to_owned(),
            html_content: html_content.to_owned(),
            text_content: text_content.to_owned(),
            timeout: self.timeout,
        }
    }

    /// The value of the `Authorization` header that presents `token` to the
    /// email service.
    pub fn authorization(token: &str) -> (header: String)
        ensures
            header@ == bearer_prefix() + token@,
    {
        "Bearer ".to_owned().concat(token)
    }

    /// Reads the email service's answer by its HTTP status.
    pub fn delivery(status: u16) -> (r: Result<(), DispatchError>)
        ensures
            r == delivery_of(status),
    {
        if 200 <= status && status <= 299 {
            Ok(())
        } else {
            Err(DispatchError::Refused { status })
        }
    }
}

} // verus!
