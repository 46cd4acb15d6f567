//! The outbound email client's data: its configuration and the request it
//! submits to the email API. The HTTP call itself is made by the
//! surrounding web layer.

use vstd::prelude::*;

verus! {

use vstd::string::StringExecFns;
use crate::subscriber::Email;

/// The JSON body of the email API call: sender, recipient, subject and
/// HTML content.
pub struct SendEmailRequest {
    pub from: String,
    pub to: String,
    pub subject: String,
    pub html_body: String,
}

/// What the email client is configured with: the API to post to, the
/// address the mail is sent from, the API token, and the public base URL
/// that verification links point at.
pub struct EmailClient {
    pub api_base_url: String,
    pub sender: Email,
    pub auth_token: String,
    pub app_base_url: String,
}

impl EmailClient {
    pub fn new(api_base_url: String, app_base_url: String, sender: Email, auth_token: String) -> (r:
        EmailClient)
        ensures
            r.api_base_url == api_base_url,
            r.app_base_url == app_base_url,
            r.sender == sender,
            r.auth_token == auth_token,
    {
        EmailClient { api_base_url, sender, auth_token, app_base_url }
    }

    /// The URL the email request is posted to.
    pub fn email_endpoint(&self) -> (r: String)
        ensures
            r@ == self.api_base_url@ + "/email"@,
    {
        let mut out = self.api_base_url.clone();
        out.append("/email");
        out
    }

    /// The request body for one outbound email: from the configured sender
    /// to the given recipient.
    pub fn build_send_request(&self, recipient: &Email, subject: &str, html_content: &str) -> (r:
        SendEmailRequest)
        ensures
            r.from@ == self.sender@,
            r.to@ == recipient@,
            r.subject@ == subject@,
            r.html_body@ == html_content@,
    {
        SendEmailRequest {
            from: self.sender.as_ref().to_owned(),
            to: recipient.as_ref().to_owned(),
            subject: subject.to_owned(),
            html_body: html_content.to_owned(),
        }
    }
}

} // verus!
