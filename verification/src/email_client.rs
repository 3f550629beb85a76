use vstd::prelude::*;

verus! {

use vstd::utf8::encode_utf8;
use crate::form_body::{form_encoded, push_form_encoded, push_str_bytes};
use crate::subscriber_email::SubscriberEmail;

/// How one notification attempt fails: the configured timeout elapsed, the
/// remote endpoint answered with a non-success status, or the transport
/// itself faulted.
#[derive(Clone, Copy, Debug, PartialEq, Eq, Structural)]
pub enum NotificationError {
    Timeout,
    RemoteRejected(u16),
    TransportFailure,
}

/// What the HTTP transport reports for the one outbound request: a response
/// with its status, the configured timeout elapsing first, or a fault before
/// any response.  The caller that drives the real transport supplies it;
/// tests simulate it.
#[derive(Clone, Copy, Debug, PartialEq, Eq, Structural)]
pub enum TransportEvent {
    Response(u16),
    TimedOut,
    Failed,
}

/// The verdict owed for each transport outcome: any 2xx response is success,
/// any other status is a rejection carrying that status, an elapsed timeout
/// is a timeout, and any other transport fault is a transport failure.
pub open spec fn send_verdict(event: TransportEvent) -> Result<(), NotificationError> {
    match event {
        TransportEvent::Response(status) => if 200 <= status < 300 {
            Ok(())
        } else {
            Err(NotificationError::RemoteRejected(status))
        },
        TransportEvent::TimedOut => Err(NotificationError::Timeout),
        TransportEvent::Failed => Err(NotificationError::TransportFailure),
    }
}

/// Decide the outcome of one notification attempt from what the transport
/// reported.  No retry is attempted: at most one attempt per call.
pub fn conclude_send(event: TransportEvent) -> (r: Result<(), NotificationError>)
    ensures
        r == send_verdict(event),
{
    match event {
        TransportEvent::Response(status) => {
            if 200 <= status && status < 300 {
                Ok(())
            } else {
                Err(NotificationError::RemoteRejected(status))
            }
        },
        TransportEvent::TimedOut => Err(NotificationError::Timeout),
        TransportEvent::Failed => Err(NotificationError::TransportFailure),
    }
}

/// One fully assembled outbound request to the transactional-email endpoint:
/// the exact URL, every form field, and the fixed transactional flag.
#[derive(Debug)]
pub struct EmailRequest {
    pub url: String,
    pub api_key: String,
    pub subject: String,
    pub from: String,
    pub to: String,
    pub body_html: String,
    pub body_text: String,
    pub is_transactional: bool,
}

/// The form-encoded body owed for a request: each field under its fixed key,
/// in the endpoint's order, with the transactional flag spelled
/// `true`/`false`.
pub open spec fn email_send_body(req: EmailRequest) -> Seq<u8> {
    encode_utf8("Apikey="@) + form_encoded(encode_utf8(req.api_key@)) + encode_utf8("&Subject="@)
        + form_encoded(encode_utf8(req.subject@)) + encode_utf8("&From="@) + form_encoded(
        encode_utf8(req.from@),
    ) + encode_utf8("&To="@) + form_encoded(encode_utf8(req.to@)) + encode_utf8("&BodyHtml="@)
        + form_encoded(encode_utf8(req.body_html@)) + encode_utf8("&BodyText="@) + form_encoded(
        encode_utf8(req.body_text@),
    ) + encode_utf8("&IsTransactional="@) + (if req.is_transactional {
        encode_utf8("true"@)
    } else {
        encode_utf8("false"@)
    })
}

impl EmailRequest {
    /// Serialize the request into its `application/x-www-form-urlencoded`
    /// body, byte for byte.
    pub fn form_body(&self) -> (r: Vec<u8>)
        ensures
            r@ == email_send_body(*self),
    {
        let mut out: Vec<u8> = Vec::new();
        push_str_bytes(&mut out, "Apikey=");
        proof {
            assert(out@ =~= encode_utf8("Apikey="@));
        }
        push_form_encoded(&mut out, &self.api_key.as_str().as_bytes_vec());
        push_str_bytes(&mut out, "&Subject=");
        push_form_encoded(&mut out, &self.subject.as_str().as_bytes_vec());
        push_str_bytes(&mut out, "&From=");
        push_form_encoded(&mut out, &self.from.as_str().as_bytes_vec());
        push_str_bytes(&mut out, "&To=");
        push_form_encoded(&mut out, &self.to.as_str().as_bytes_vec());
        push_str_bytes(&mut out, "&BodyHtml=");
        push_form_encoded(&mut out, &self.body_html.as_str().as_bytes_vec());
        push_str_bytes(&mut out, "&BodyText=");
        push_form_encoded(&mut out, &self.body_text.as_str().as_bytes_vec());
        push_str_bytes(&mut out, "&IsTransactional=");
        if self.is_transactional {
            push_str_bytes(&mut out, "true");
        } else {
            push_str_bytes(&mut out, "false");
        }
        out
    }
}

/// The notification client: its configuration — base URL, sender address,
/// API credential, timeout — is fixed at construction, and it keeps no state
/// across calls.
#[derive(Debug)]
pub struct EmailClient {
    pub base_url: String,
    pub sender: SubscriberEmail,
    pub api_key: String,
    pub timeout_milliseconds: u64,
}

impl EmailClient {
    pub fn new(
        base_url: String,
        sender: SubscriberEmail,
        api_key: String,
        timeout_milliseconds: u64,
    ) -> (r: EmailClient)
        ensures
            r.base_url@ == base_url@,
            r.sender@ == sender@,
            r.api_key@ == api_key@,
            r.timeout_milliseconds == timeout_milliseconds,
    {
        EmailClient { base_url, sender, api_key, timeout_milliseconds }
    }

    /// The fixed path every notification is posted to, under the configured
    /// base URL.
    pub fn send_url(&self) -> (r: String)
        ensures
            r@ == self.base_url@ + "/email/send"@,
    {
        self.base_url.clone().concat("/email/send")
    }

    /// Assemble the one outbound request for a confirmation email: sender and
    /// credential from the configuration, recipient and content from the
    /// caller, always flagged transactional.
    pub fn build_request(
        &self,
        recipient: &SubscriberEmail,
        subject: &str,
        html_content: &str,
        text_content: &str,
    ) -> (r: EmailRequest)
        ensures
            r.url@ == self.base_url@ + "/email/send"@,
            r.api_key@ == self.api_key@,
            r.subject@ == subject@,
            r.from@ == self.sender@,
            r.to@ == recipient@,
            r.body_html@ == html_content@,
            r.body_text@ == text_content@,
            r.is_transactional,
    {
        EmailRequest {
            url: self.send_url(),
            api_key: self.api_key.clone(),
            subject: subject.to_owned(),
            from: self.sender.as_ref().to_owned(),
            to: recipient.as_ref().to_owned(),
            body_html: html_content.to_owned(),
            body_text: text_content.to_owned(),
            is_transactional: true,
        }
    }
}

} // verus!
