use vstd::prelude::*;

verus! {

use crate::new_subscriber::NewSubscriber;

/// How a store call fails: the storage was unreachable, or the write itself
/// faulted.  Every failure is surfaced to the caller, never swallowed.
#[derive(Clone, Copy, Debug, PartialEq, Eq, Structural)]
pub enum StoreError {
    ConnectionFailure,
    WriteFailure,
}

/// What the storage link reports while one insert runs: the one event the
/// core cannot decide for itself.  The caller that drives the real
/// connection supplies it; tests simulate it.
#[derive(Clone, Copy, Debug, PartialEq, Eq, Structural)]
pub enum Connectivity {
    Up,
    Unreachable,
    Faulty,
}

/// Relies on `uuid::Uuid::new_v4`, a freshly generated random version-4
/// identity, returned through `Uuid::as_u128`.  Nothing can be promised of a
/// random value.
#[verifier::external_body]
fn fresh_id() -> u128 {
    uuid::Uuid::new_v4().as_u128()
}

/// Relies on `chrono::Utc::now`, the store's own clock at insert time,
/// returned as milliseconds since the Unix epoch.  Nothing can be promised
/// of a clock reading.
#[verifier::external_body]
fn now_unix_millis() -> i64 {
    chrono::Utc::now().timestamp_millis()
}

/// One persisted subscription record.  The identity and timestamp are the
/// store's own, never client-supplied; there is no update or delete
/// lifecycle.
#[derive(Debug, Clone)]
pub struct Subscription {
    pub id: u128,
    pub email: String,
    pub name: String,
    pub subscribed_at: i64,
}

/// Whether two records carry the same data.
pub open spec fn row_matches(a: Subscription, b: Subscription) -> bool {
    &&& a.id == b.id
    &&& a.email@ == b.email@
    &&& a.name@ == b.name@
    &&& a.subscribed_at == b.subscribed_at
}

/// The subscriptions table: append-only, one new row per successful insert.
/// No email-uniqueness rule is enforced, so re-subscribing with the same
/// address adds a second independent row.
pub struct SubscriptionStore {
    rows: Vec<Subscription>,
}

impl View for SubscriptionStore {
    type V = Seq<Subscription>;

    closed spec fn view(&self) -> Seq<Subscription> {
        self.rows@
    }
}

/// Exactly how one insert relates the table before the call, the table after
/// it, and the result: a success appends one row carrying the subscriber's
/// data, and any failure leaves the table untouched — at most one write per
/// call, with no partial state.
pub open spec fn insert_post(
    pre: Seq<Subscription>,
    post: Seq<Subscription>,
    subscriber: NewSubscriber,
    link: Connectivity,
    r: Result<Subscription, StoreError>,
) -> bool {
    match r {
        Ok(sub) => {
            &&& link == Connectivity::Up
            &&& post.len() == pre.len() + 1
            &&& post.drop_last() == pre
            &&& row_matches(post.last(), sub)
            &&& sub.email@ == subscriber.email@
            &&& sub.name@ == subscriber.name@
        },
        Err(e) => {
            &&& link != Connectivity::Up
            &&& post == pre
            &&& e == (if link == Connectivity::Unreachable {
                StoreError::ConnectionFailure
            } else {
                StoreError::WriteFailure
            })
        },
    }
}

impl SubscriptionStore {
    /// An empty table.
    pub fn new() -> (r: SubscriptionStore)
        ensures
            r@.len() == 0,
    {
        SubscriptionStore { rows: Vec::new() }
    }

    /// Durably insert one accepted subscriber: generate a fresh identity and
    /// the current timestamp, and append the row — unless the link reports a
    /// failure, in which case nothing at all is written.
    pub fn insert(&mut self, subscriber: &NewSubscriber, link: Connectivity) -> (r: Result<
        Subscription,
        StoreError,
    >)
        ensures
            insert_post(old(self)@, final(self)@, *subscriber, link, r),
    {
        match link {
            Connectivity::Unreachable => Err(StoreError::ConnectionFailure),
            Connectivity::Faulty => Err(StoreError::WriteFailure),
            Connectivity::Up => {
                let id = fresh_id();
                let subscribed_at = now_unix_millis();
                let email = subscriber.email.as_ref().to_owned();
                let name = subscriber.name.as_ref().to_owned();
                let row = Subscription {
                    id,
                    email: email.clone(),
                    name: name.clone(),
                    subscribed_at,
                };
                self.rows.push(row);
                let sub = Subscription { id, email, name, subscribed_at };
                proof {
                    assert(final(self)@.drop_last() =~= old(self)@);
                }
                Ok(sub)
            },
        }
    }

    /// How many rows the table holds.
    pub fn len(&self) -> (r: usize)
        ensures
            r == self@.len(),
    {
        self.rows.len()
    }

    /// Read one row back.
    pub fn row(&self, i: usize) -> (r: &Subscription)
        requires
            i < self@.len(),
        ensures
            *r == self@[i as int],
    {
        &self.rows[i]
    }
}

/// Store round-trip law: after a successful insert the row read back carries
/// exactly the email and name that were supplied, modulo the generated
/// identity and timestamp.
pub proof fn lemma_store_round_trip(
    pre: Seq<Subscription>,
    post: Seq<Subscription>,
    subscriber: NewSubscriber,
    link: Connectivity,
    r: Result<Subscription, StoreError>,
)
    requires
        insert_post(pre, post, subscriber, link, r),
        r is Ok,
    ensures
        post.len() == pre.len() + 1,
        post[post.len() - 1].email@ == subscriber.email@,
        post[post.len() - 1].name@ == subscriber.name@,
{
}

/// At-most-one-write law: a store call that fails, however it fails, leaves
/// zero new rows — the table after the call is the table before it.
pub proof fn lemma_at_most_one_write(
    pre: Seq<Subscription>,
    post: Seq<Subscription>,
    subscriber: NewSubscriber,
    link: Connectivity,
    r: Result<Subscription, StoreError>,
)
    requires
        insert_post(pre, post, subscriber, link, r),
        r is Err,
    ensures
        post == pre,
{
}

} // verus!
