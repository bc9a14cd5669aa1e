use vstd::prelude::*;
use crate::domain::new_subscriber::{NewSubscriber, is_acceptable_form};
use crate::domain::subscriber_email::SubscriberEmail;
use crate::exception::biz_exception::{BizError, biz_error_message};
use crate::model::common_response::CommonResponse;

verus! {

/// The fields of a submitted subscription form.
#[derive(Debug)]
pub struct UserInfo {
    pub username: String,
    pub email: String,
}

// ---------------------------------------------------------------------
// The stored subscription
// ---------------------------------------------------------------------

/// Where a subscription stands.
pub enum SubscriptionStatus {
    Waiting,
    Confirmed,
}

/// The row a new subscription is stored as.
pub struct SubscriptionRecord {
    pub id: u128,
    pub email: String,
    pub username: String,
    /// Microseconds since the Unix epoch, in UTC.
    pub subscribed_at_micros: i64,
    pub status: SubscriptionStatus,
}

/// `id` is laid out as a random (version 4) RFC 4122 UUID.
pub open spec fn is_random_uuid(id: u128) -> bool {
    &&& (id >> 76u128) & 0xfu128 == 4u128
    &&& (id >> 62u128) & 0x3u128 == 2u128
}

/// Calls `uuid::Uuid::new_v4` and reads the UUID as a `u128`.  The value
/// is random; the crate's source fixes its version and variant bits.
#[verifier::external_body]
fn new_random_uuid() -> (id: u128)
    ensures
        is_random_uuid(id),
{
    uuid::Uuid::new_v4().as_u128()
}

/// Calls `chrono::Utc::now` and reads it as microseconds since the Unix
/// epoch.  Of the clock's value only this is stated: `Utc::now` refuses
/// (panics on) a time before the epoch, so the result is not negative.
#[verifier::external_body]
fn now_micros() -> (t: i64)
    ensures
        t >= 0,
{
    chrono::Utc::now().timestamp_micros()
}

/// The row for `new_subscriber`, with the given key and time: it holds
/// the subscriber's address and name and waits for confirmation.
pub fn subscription_record(new_subscriber: &NewSubscriber, id: u128, subscribed_at_micros: i64) -> (r: SubscriptionRecord)
    ensures
        r.id == id,
        r.email@ == new_subscriber.email@,
        r.username@ == new_subscriber.username@,
        r.subscribed_at_micros == subscribed_at_micros,
        r.status is Waiting,
{
    SubscriptionRecord {
        id,
        email: String::from_str(new_subscriber.email.as_ref()),
        username: String::from_str(new_subscriber.username.as_ref()),
        subscribed_at_micros,
        status: SubscriptionStatus::Waiting,
    }
}

/// The row a new subscription is stored as: a fresh random UUID as key,
/// the current time, the subscriber's address and name, and the status
/// `Waiting`.
pub fn new_subscription_record(new_subscriber: &NewSubscriber) -> (r: SubscriptionRecord)
    ensures
        is_random_uuid(r.id),
        r.subscribed_at_micros >= 0,
        r.email@ == new_subscriber.email@,
        r.username@ == new_subscriber.username@,
        r.status is Waiting,
{
    let id = new_random_uuid();
    let at = now_micros();
    subscription_record(new_subscriber, id, at)
}

// ---------------------------------------------------------------------
// Serving a subscription request
// ---------------------------------------------------------------------

/// The subject of the confirmation mail.
pub open spec fn confirmation_subject() -> Seq<char> {
    "Hello Subscriber"@
}

/// The link the confirmation mail carries, in its HTML and in its text
/// part alike.
pub open spec fn confirmation_link() -> Seq<char> {
    "https://www.baidu.com"@
}

/// The mail that confirms a subscription.
pub struct ConfirmationEmail {
    pub recipient: SubscriberEmail,
    pub subject: String,
    pub html_content: String,
    pub text_content: String,
}

/// The HTTP answer to a subscription request.
pub enum HttpReply {
    /// 200, with an empty body.
    Success,
    /// 400, with a JSON body that reports why the form was refused.
    BadRequest(CommonResponse<String>),
    /// 500, with an empty body.
    InternalServerError,
}

/// How far a subscription request has been served.
pub enum SubscribeState {
    /// Nothing has been done yet.
    AwaitingForm,
    /// The subscriber is being stored; the confirmation goes to this address.
    AwaitingStore(SubscriberEmail),
    /// The confirmation mail is being sent.
    AwaitingDelivery,
    /// The request has been answered.
    Finished,
}

/// What the outside world reports back.
pub enum SubscribeEvent {
    /// The request's form arrived.
    FormSubmitted(UserInfo),
    /// Storing the subscriber succeeded (`true`) or failed.
    StoreFinished(bool),
    /// Sending the confirmation mail succeeded (`true`) or failed.
    DeliveryFinished(bool),
}

/// What is to be done next.
pub enum SubscribeAction {
    /// Answer the request.
    Reply(HttpReply),
    /// Store the subscriber.
    Store(NewSubscriber),
    /// Send the confirmation mail.
    Deliver(ConfirmationEmail),
}

/// The view of an answer: its body reduced to code, text and data.
pub enum ReplyModel {
    Success,
    BadRequest(u16, Seq<char>, Option<Seq<char>>),
    InternalServerError,
}

/// The view of a state.
pub enum StateModel {
    AwaitingForm,
    AwaitingStore(Seq<char>),
    AwaitingDelivery,
    Finished,
}

/// The view of an event; a form is seen as its name and its address.
pub enum EventModel {
    FormSubmitted(Seq<char>, Seq<char>),
    StoreFinished(bool),
    DeliveryFinished(bool),
}

/// The view of an action: a subscriber is seen as its name and address,
/// a mail as its recipient, subject, HTML part and text part.
pub enum ActionModel {
    Reply(ReplyModel),
    Store(Seq<char>, Seq<char>),
    Deliver(Seq<char>, Seq<char>, Seq<char>, Seq<char>),
}

impl View for HttpReply {
    type V = ReplyModel;

    open spec fn view(&self) -> ReplyModel {
        match self {
            HttpReply::Success => ReplyModel::Success,
            HttpReply::BadRequest(body) => ReplyModel::BadRequest(
                body.code,
                body.msg@,
                match body.data {
                    Some(d) => Some(d@),
                    None => None,
                },
            ),
            HttpReply::InternalServerError => ReplyModel::InternalServerError,
        }
    }
}

impl View for SubscribeState {
    type V = StateModel;

    open spec fn view(&self) -> StateModel {
        match self {
            SubscribeState::AwaitingForm => StateModel::AwaitingForm,
            SubscribeState::AwaitingStore(e) => StateModel::AwaitingStore(e@),
            SubscribeState::AwaitingDelivery => StateModel::AwaitingDelivery,
            SubscribeState::Finished => StateModel::Finished,
        }
    }
}

impl View for SubscribeEvent {
    type V = EventModel;

    open spec fn view(&self) -> EventModel {
        match self {
            SubscribeEvent::FormSubmitted(f) => EventModel::FormSubmitted(f.username@, f.email@),
            SubscribeEvent::StoreFinished(ok) => EventModel::StoreFinished(*ok),
            SubscribeEvent::DeliveryFinished(ok) => EventModel::DeliveryFinished(*ok),
        }
    }
}

impl View for SubscribeAction {
    type V = ActionModel;

    open spec fn view(&self) -> ActionModel {
        match self {
            SubscribeAction::Reply(r) => ActionModel::Reply(r@),
            SubscribeAction::Store(s) => ActionModel::Store(s.username@, s.email@),
            SubscribeAction::Deliver(m) => ActionModel::Deliver(
                m.recipient@,
                m.subject@,
                m.html_content@,
                m.text_content@,
            ),
        }
    }
}

/// The answer to a refused form: 400, reporting a refused parameter.
pub open spec fn refused_form_reply() -> ReplyModel {
    ReplyModel::BadRequest(500, biz_error_message(BizError::ParamInvalid(arbitrary())), None)
}

/// Which events a state waits for.
pub open spec fn accepts_event(s: StateModel, e: EventModel) -> bool {
    match (s, e) {
        (StateModel::AwaitingForm, EventModel::FormSubmitted(_, _)) => true,
        (StateModel::AwaitingStore(_), EventModel::StoreFinished(_)) => true,
        (StateModel::AwaitingDelivery, EventModel::DeliveryFinished(_)) => true,
        _ => false,
    }
}

/// One step of serving a subscription request.  A refused form is answered
/// 400 at once.  An accepted one is stored first; a failed store is
/// answered 500.  After a successful store the confirmation mail is sent
/// to the subscriber; a failed delivery is answered 500, a successful one
/// 200.
pub open spec fn subscribe_next(s: StateModel, e: EventModel) -> (StateModel, ActionModel) {
    match (s, e) {
        (StateModel::AwaitingForm, EventModel::FormSubmitted(username, email)) =>
            if is_acceptable_form(username, email) {
                (StateModel::AwaitingStore(email), ActionModel::Store(username, email))
            } else {
                (StateModel::Finished, ActionModel::Reply(refused_form_reply()))
            },
        (StateModel::AwaitingStore(email), EventModel::StoreFinished(ok)) =>
            if ok {
                (
                    StateModel::AwaitingDelivery,
                    ActionModel::Deliver(
                        email,
                        confirmation_subject(),
                        confirmation_link(),
                        confirmation_link(),
                    ),
                )
            } else {
                (StateModel::Finished, ActionModel::Reply(ReplyModel::InternalServerError))
            },
        (StateModel::AwaitingDelivery, EventModel::DeliveryFinished(ok)) =>
            if ok {
                (StateModel::Finished, ActionModel::Reply(ReplyModel::Success))
            } else {
                (StateModel::Finished, ActionModel::Reply(ReplyModel::InternalServerError))
            },
        _ => (StateModel::Finished, ActionModel::Reply(ReplyModel::InternalServerError)),
    }
}

impl SubscribeState {
    /// The state a request starts in.
    pub fn new() -> (r: SubscribeState)
        ensures
            r@ == StateModel::AwaitingForm,
    {
        SubscribeState::AwaitingForm
    }

    /// Whether this state waits for `event`.
    pub fn accepts(&self, event: &SubscribeEvent) -> (r: bool)
        ensures
            r == accepts_event(self@, event@),
    {
        match (self, event) {
            (SubscribeState::AwaitingForm, SubscribeEvent::FormSubmitted(_)) => true,
            (SubscribeState::AwaitingStore(_), SubscribeEvent::StoreFinished(_)) => true,
            (SubscribeState::AwaitingDelivery, SubscribeEvent::DeliveryFinished(_)) => true,
            _ => false,
        }
    }

    /// The next state and what to do, as `subscribe_next` says.
    pub fn step(self, event: SubscribeEvent) -> (r: (SubscribeState, SubscribeAction))
        requires
            accepts_event(self@, event@),
        ensures
            (r.0@, r.1@) == subscribe_next(self@, event@),
    {
        match (self, event) {
            (SubscribeState::AwaitingForm, SubscribeEvent::FormSubmitted(form)) => {
                match NewSubscriber::try_from(form) {
                    Ok(subscriber) => {
                        let recipient = subscriber.email.clone();
                        (SubscribeState::AwaitingStore(recipient), SubscribeAction::Store(subscriber))
                    },
                    Err(e) => {
                        let body = CommonResponse::error_response(e);
                        (SubscribeState::Finished, SubscribeAction::Reply(HttpReply::BadRequest(body)))
                    },
                }
            },
            (SubscribeState::AwaitingStore(recipient), SubscribeEvent::StoreFinished(ok)) => {
                if ok {
                    let mail = ConfirmationEmail {
                        recipient,
                        subject: String::from_str("Hello Subscriber"),
                        html_content: String::from_str("https://www.baidu.com"),
                        text_content: String::from_str("https://www.baidu.com"),
                    };
                    (SubscribeState::AwaitingDelivery, SubscribeAction::Deliver(mail))
                } else {
                    (SubscribeState::Finished, SubscribeAction::Reply(HttpReply::InternalServerError))
                }
            },
            (SubscribeState::AwaitingDelivery, SubscribeEvent::DeliveryFinished(ok)) => {
                if ok {
                    (SubscribeState::Finished, SubscribeAction::Reply(HttpReply::Success))
                } else {
                    (SubscribeState::Finished, SubscribeAction::Reply(HttpReply::InternalServerError))
                }
            },
            (_, _) => {
                (SubscribeState::Finished, SubscribeAction::Reply(HttpReply::InternalServerError))
            },
        }
    }
}

} // verus!
