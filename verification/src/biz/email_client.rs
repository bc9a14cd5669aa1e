use vstd::prelude::*;
use crate::domain::subscriber_email::SubscriberEmail;

verus! {

/// The header that carries the mail service's authorization token.
pub const AUTHORIZATION_HEADER: &'static str = "X-Postmark-Server-Token";

/// The JSON body of a send-email request to the mail service.
pub struct SendEmailRequest {
    pub from: String,
    pub to: String,
    pub subject: String,
    pub html_body: String,
    pub text_body: String,
}

/// A send-email request ready to be posted: where to, with which token,
/// and what body.
pub struct EmailDelivery {
    pub url: String,
    pub authorization_token: String,
    pub body: SendEmailRequest,
}

/// What a client of the mail service is configured with: the service's
/// base URL, the sender address and the authorization token.
pub struct EmailClient {
    pub sender: SubscriberEmail,
    pub base_url: String,
    pub authorization_token: String,
}

impl EmailClient {
    /// A client for the service at `base_url` that sends as `sender`.
    pub fn new(base_url: String, sender: SubscriberEmail, authorization_token: String) -> (r: EmailClient)
        ensures
            r.base_url@ == base_url@,
            r.sender@ == sender@,
            r.authorization_token@ == authorization_token@,
    {
        EmailClient { sender, base_url, authorization_token }
    }

    /// The request that sends `recipient` a mail: it is posted to the
    /// service's `/email` endpoint, authorized by the client's token, from
    /// the client's sender.
    pub fn send_email(
        &self,
        recipient: &SubscriberEmail,
        subject: String,
        html_content: String,
        text_content: String,
    ) -> (r: EmailDelivery)
        ensures
            r.url@ == self.base_url@ + "/email"@,
            r.authorization_token@ == self.authorization_token@,
            r.body.from@ == self.sender@,
            r.body.to@ == recipient@,
            r.body.subject@ == subject@,
            r.body.html_body@ == html_content@,
            r.body.text_body@ == text_content@,
    {
        let url = self.base_url.clone().concat("/email");
        let body = SendEmailRequest {
            from: String::from_str(self.sender.as_ref()),
            to: String::from_str(recipient.as_ref()),
            subject,
            html_body: html_content,
            text_body: text_content,
        };
        EmailDelivery { url, authorization_token: self.authorization_token.clone(), body }
    }
}

} // verus!
