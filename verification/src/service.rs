use vstd::prelude::*;

verus! {

use crate::email_client::{
    EmailClient, EmailRequest, NotificationError, TransportEvent, conclude_send, send_verdict,
};
use crate::new_subscriber::{FormData, NewSubscriber};
use crate::store::{Connectivity, Subscription, SubscriptionStore, row_matches};
use crate::subscriber_email::email_ok;
use crate::subscriber_name::{name_ok, trim_spec};
use crate::telemetry::EventLog;

/// The states one subscription request passes through: received, validated,
/// stored, notified, completed, with early exits to rejected (client fault)
/// and failed (server fault).
#[derive(Clone, Copy, Debug, PartialEq, Eq, Structural)]
pub enum RequestState {
    Received,
    Validated,
    Stored,
    Notified,
    Completed,
    Rejected,
    Failed,
}

/// The one decision of the health endpoint: the process answers, so the
/// status is success.
pub fn health_check() -> (r: u16)
    ensures
        r == 200u16,
{
    200
}

/// Everything one request run decides: the HTTP-facing status, the stored
/// row if one was written, the outbound request if a notification was
/// attempted, and that notification's verdict.
pub struct SubscribeOutcome {
    pub status: u16,
    pub subscription: Option<Subscription>,
    pub request: Option<EmailRequest>,
    pub notification: Option<Result<(), NotificationError>>,
}

/// A request turned away with `status` before any side effect: the table is
/// untouched, nothing was stored, no notification was attempted.
pub open spec fn turned_away(
    pre_rows: Seq<Subscription>,
    post_rows: Seq<Subscription>,
    r: SubscribeOutcome,
    status: u16,
) -> bool {
    &&& r.status == status
    &&& post_rows == pre_rows
    &&& r.subscription is None
    &&& r.request is None
    &&& r.notification is None
}

/// A request that was stored: exactly one new row carrying the validated
/// values, an outbound confirmation request assembled for the stored
/// address, the notification verdict reported — and overall success even
/// when that verdict is a failure, since persistence is the source of truth
/// and notification is best-effort.
pub open spec fn accepted(
    pre_rows: Seq<Subscription>,
    post_rows: Seq<Subscription>,
    client: EmailClient,
    name_raw: Seq<char>,
    email_raw: Seq<char>,
    subject: Seq<char>,
    html: Seq<char>,
    text: Seq<char>,
    delivery: TransportEvent,
    r: SubscribeOutcome,
) -> bool {
    &&& r.status == 200
    &&& post_rows.len() == pre_rows.len() + 1
    &&& post_rows.drop_last() == pre_rows
    &&& post_rows.last().email@ == email_raw
    &&& post_rows.last().name@ == trim_spec(name_raw)
    &&& r.subscription matches Some(sub) && row_matches(sub, post_rows.last())
    &&& r.request matches Some(req) && {
        &&& req.url@ == client.base_url@ + "/email/send"@
        &&& req.api_key@ == client.api_key@
        &&& req.from@ == client.sender@
        &&& req.to@ == email_raw
        &&& req.subject@ == subject
        &&& req.body_html@ == html
        &&& req.body_text@ == text
        &&& req.is_transactional
    }
    &&& r.notification == Some(send_verdict(delivery))
}

/// The states the sink records for one request, in order.
pub open spec fn logged_path(
    name: Option<String>,
    email: Option<String>,
    link: Connectivity,
    delivery: TransportEvent,
) -> Seq<RequestState> {
    match (name, email) {
        (Some(n), Some(m)) => {
            if !(name_ok(n@) && email_ok(m@)) {
                seq![RequestState::Received, RequestState::Rejected]
            } else if link != Connectivity::Up {
                seq![RequestState::Received, RequestState::Validated, RequestState::Failed]
            } else if send_verdict(delivery) is Ok {
                seq![
                    RequestState::Received,
                    RequestState::Validated,
                    RequestState::Stored,
                    RequestState::Notified,
                    RequestState::Completed,
                ]
            } else {
                seq![
                    RequestState::Received,
                    RequestState::Validated,
                    RequestState::Stored,
                    RequestState::Completed,
                ]
            }
        },
        _ => seq![RequestState::Received, RequestState::Rejected],
    }
}

/// Run one subscription request through the whole write path: validate the
/// raw fields, persist on success, then attempt the confirmation email.
///
/// A missing field is a transport-shaped fault (422); an invalid field is a
/// semantic rejection (400); a store failure aborts the request with no
/// notification attempted (500); once the row is committed the request
/// reports success (200) whatever the notification verdict, and nothing is
/// ever retried.
pub fn handle_subscription(
    store: &mut SubscriptionStore,
    log: &mut EventLog,
    client: &EmailClient,
    name: Option<String>,
    email: Option<String>,
    subject: &str,
    html_content: &str,
    text_content: &str,
    link: Connectivity,
    delivery: TransportEvent,
) -> (r: SubscribeOutcome)
    requires
        old(log).active,
    ensures
        final(log).active,
        final(log).entries@ == old(log).entries@ + logged_path(name, email, link, delivery),
        match (name, email) {
            (Some(n), Some(m)) => {
                if name_ok(n@) && email_ok(m@) {
                    if link == Connectivity::Up {
                        accepted(
                            old(store)@,
                            final(store)@,
                            *client,
                            n@,
                            m@,
                            subject@,
                            html_content@,
                            text_content@,
                            delivery,
                            r,
                        )
                    } else {
                        turned_away(old(store)@, final(store)@, r, 500)
                    }
                } else {
                    turned_away(old(store)@, final(store)@, r, 400)
                }
            },
            _ => turned_away(old(store)@, final(store)@, r, 422),
        },
{
    log.record(RequestState::Received);

    let (name_raw, email_raw) = match (name, email) {
        (Some(n), Some(m)) => (n, m),
        _ => {
            log.record(RequestState::Rejected);
            proof {
                assert(log.entries@ =~= old(log).entries@ + seq![
                    RequestState::Received,
                    RequestState::Rejected,
                ]);
            }
            return SubscribeOutcome {
                status: 422,
                subscription: None,
                request: None,
                notification: None,
            };
        },
    };

    let form = FormData { name: name_raw, email: email_raw };
    let subscriber = match NewSubscriber::try_from(form) {
        Ok(s) => s,
        Err(_) => {
            log.record(RequestState::Rejected);
            proof {
                assert(log.entries@ =~= old(log).entries@ + seq![
                    RequestState::Received,
                    RequestState::Rejected,
                ]);
            }
            return SubscribeOutcome {
                status: 400,
                subscription: None,
                request: None,
                notification: None,
            };
        },
    };
    log.record(RequestState::Validated);

    let stored = match store.insert(&subscriber, link) {
        Ok(sub) => sub,
        Err(_) => {
            log.record(RequestState::Failed);
            proof {
                assert(log.entries@ =~= old(log).entries@ + seq![
                    RequestState::Received,
                    RequestState::Validated,
                    RequestState::Failed,
                ]);
            }
            return SubscribeOutcome {
                status: 500,
                subscription: None,
                request: None,
                notification: None,
            };
        },
    };
    log.record(RequestState::Stored);

    let request = client.build_request(&subscriber.email, subject, html_content, text_content);
    let verdict = conclude_send(delivery);
    match verdict {
        Ok(_) => {
            log.record(RequestState::Notified);
            log.record(RequestState::Completed);
            proof {
                assert(log.entries@ =~= old(log).entries@ + seq![
                    RequestState::Received,
                    RequestState::Validated,
                    RequestState::Stored,
                    RequestState::Notified,
                    RequestState::Completed,
                ]);
            }
        },
        Err(_) => {
            log.record(RequestState::Completed);
            proof {
                assert(log.entries@ =~= old(log).entries@ + seq![
                    RequestState::Received,
                    RequestState::Validated,
                    RequestState::Stored,
                    RequestState::Completed,
                ]);
            }
        },
    }

    SubscribeOutcome {
        status: 200,
        subscription: Some(stored),
        request: Some(request),
        notification: Some(verdict),
    }
}

} // verus!
