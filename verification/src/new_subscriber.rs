use vstd::prelude::*;

verus! {

use crate::domain::ValidationError;
use crate::subscriber_email::{SubscriberEmail, email_ok};
use crate::subscriber_name::{SubscriberName, name_error, name_ok, trim_spec};

/// The raw name/email pair exactly as the transport hands it over, not yet
/// validated.
#[derive(Debug, Clone)]
pub struct FormData {
    pub name: String,
    pub email: String,
}

/// The aggregate of the two validated value objects: the only shape the
/// write path ever accepts.
#[derive(Debug)]
pub struct NewSubscriber {
    pub email: SubscriberEmail,
    pub name: SubscriberName,
}

/// Exactly how constructing a `NewSubscriber` relates to the raw form pair:
/// the name is validated first, then the email, and the first failure is
/// surfaced unchanged.
pub open spec fn subscriber_post(
    name_raw: Seq<char>,
    email_raw: Seq<char>,
    r: Result<NewSubscriber, ValidationError>,
) -> bool {
    match r {
        Ok(ns) => {
            &&& name_ok(name_raw)
            &&& ns.name@ == trim_spec(name_raw)
            &&& email_ok(email_raw)
            &&& ns.email@ == email_raw
        },
        Err(e) => {
            if !name_ok(name_raw) {
                e == name_error(name_raw)
            } else {
                !email_ok(email_raw) && e == ValidationError::InvalidEmail
            }
        },
    }
}

impl NewSubscriber {
    /// Validate the name, then the email, surfacing whichever fails first;
    /// no further validation happens beyond composing the two value parsers.
    pub fn try_from(value: FormData) -> (r: Result<NewSubscriber, ValidationError>)
        ensures
            subscriber_post(value.name@, value.email@, r),
    {
        let name = match SubscriberName::parse(value.name) {
            Ok(n) => n,
            Err(e) => {
                return Err(e);
            },
        };
        let email = match SubscriberEmail::parse(value.email) {
            Ok(m) => m,
            Err(e) => {
                return Err(e);
            },
        };
        Ok(NewSubscriber { email, name })
    }
}

/// Construction decides by the two raw texts alone, so building a subscriber
/// from the same form pair twice yields value-equal results.
pub proof fn lemma_subscriber_validation_idempotent(
    name_raw: Seq<char>,
    email_raw: Seq<char>,
    r1: Result<NewSubscriber, ValidationError>,
    r2: Result<NewSubscriber, ValidationError>,
)
    requires
        subscriber_post(name_raw, email_raw, r1),
        subscriber_post(name_raw, email_raw, r2),
    ensures
        r1 is Ok <==> r2 is Ok,
        r1 is Ok ==> r1->Ok_0.name@ == r2->Ok_0.name@ && r1->Ok_0.email@ == r2->Ok_0.email@,
        r1 is Err ==> r1->Err_0 == r2->Err_0,
{
}

} // verus!
