use crate::domain::SubscriberEmail;
use vstd::prelude::*;

verus! {

/// The body of a request to the email delivery service: who sends, to whom,
/// the subject and both renderings of the message.
pub struct SendEmailRequest {
    pub from: String,
    pub to: String,
    pub subject: String,
    pub html_body: String,
    pub text_body: String,
}

impl SendEmailRequest {
    /// The request that sends `subject` with `html_content` and `text_content`
    /// from `sender` to `recipient`.
    pub fn new(
        sender: &SubscriberEmail,
        recipient: &SubscriberEmail,
        subject: &str,
        html_content: &str,
        text_content: &str,
    ) -> (r: SendEmailRequest)
        ensures
            r.from@ == sender@,
            r.to@ == recipient@,
            r.subject@ == subject@,
            r.html_body@ == html_content@,
            r.text_body@ == text_content@,
    {
        SendEmailRequest {
            from: sender.as_ref().to_string(),
            to: recipient.as_ref().to_string(),
            subject: subject.to_string(),
            html_body: html_content.to_string(),
            text_body: text_content.to_string(),
        }
    }
}

} // verus!
