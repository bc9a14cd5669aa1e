use vstd::prelude::*;
use crate::domain::new_subscriber::is_acceptable_form;
use crate::domain::subscriber_email::has_user_and_domain;
use crate::routes::subscriptions::{
    accepts_event, confirmation_link, confirmation_subject, refused_form_reply, subscribe_next, ActionModel,
    EventModel, ReplyModel, StateModel,
};

verus! {

/// Every action taken while serving one request whose form holds
/// `username` and `email`, when storing the subscriber reports `stored`
/// and sending the confirmation reports `delivered`.
pub open spec fn serve(username: Seq<char>, email: Seq<char>, stored: bool, delivered: bool) -> Seq<ActionModel> {
    let (s1, a1) = subscribe_next(StateModel::AwaitingForm, EventModel::FormSubmitted(username, email));
    if s1 is Finished {
        seq![a1]
    } else {
        let (s2, a2) = subscribe_next(s1, EventModel::StoreFinished(stored));
        if s2 is Finished {
            seq![a1, a2]
        } else {
            let (s3, a3) = subscribe_next(s2, EventModel::DeliveryFinished(delivered));
            seq![a1, a2, a3]
        }
    }
}

/// Each state that a request passes through waits for the event that
/// `serve` feeds it next, so the run is well formed.
pub proof fn law_serve_follows_accepted_events(username: Seq<char>, email: Seq<char>, stored: bool, delivered: bool)
    ensures
        accepts_event(StateModel::AwaitingForm, EventModel::FormSubmitted(username, email)),
        ({
            let s1 = subscribe_next(StateModel::AwaitingForm, EventModel::FormSubmitted(username, email)).0;
            !(s1 is Finished) ==> accepts_event(s1, EventModel::StoreFinished(stored))
                && ({
                    let s2 = subscribe_next(s1, EventModel::StoreFinished(stored)).0;
                    !(s2 is Finished) ==> accepts_event(s2, EventModel::DeliveryFinished(delivered))
                        && subscribe_next(s2, EventModel::DeliveryFinished(delivered)).0 is Finished
                })
        }),
{
}

/// A request whose form is refused is answered 400 with a body that
/// reports a refused parameter, and nothing is stored or sent.
pub proof fn law_refused_form_answered_bad_request(username: Seq<char>, email: Seq<char>, stored: bool, delivered: bool)
    requires
        !is_acceptable_form(username, email),
    ensures
        serve(username, email, stored, delivered) == seq![ActionModel::Reply(refused_form_reply())],
        refused_form_reply() == ReplyModel::BadRequest(500, "参数异常"@, None),
{
}

/// A form whose address has no user part or no domain around an `@`
/// (such as `@gmail.com`) is refused: answered 400, with nothing stored
/// or sent.
pub proof fn law_address_without_user_or_domain_refused(
    username: Seq<char>,
    email: Seq<char>,
    stored: bool,
    delivered: bool,
)
    requires
        !has_user_and_domain(email),
    ensures
        serve(username, email, stored, delivered) == seq![ActionModel::Reply(refused_form_reply())],
{
}

/// Every request is answered exactly once, by its last action.
pub proof fn law_answered_exactly_once(username: Seq<char>, email: Seq<char>, stored: bool, delivered: bool)
    ensures
        ({
            let run = serve(username, email, stored, delivered);
            &&& run.len() >= 1
            &&& run.last() is Reply
            &&& forall|i: int| 0 <= i < run.len() - 1 ==> !(#[trigger] run[i] is Reply)
        }),
{
    let run = serve(username, email, stored, delivered);
    assert forall|i: int| 0 <= i < run.len() - 1 implies !(#[trigger] run[i] is Reply) by {}
}

/// A request is answered 200 exactly when its form is accepted, the
/// subscriber is stored and the confirmation mail is sent; otherwise a
/// refused form is answered 400 and any failure afterwards 500.
pub proof fn law_success_exactly_when_all_steps_succeed(username: Seq<char>, email: Seq<char>, stored: bool, delivered: bool)
    ensures
        ({
            let last = serve(username, email, stored, delivered).last();
            &&& (last == ActionModel::Reply(ReplyModel::Success)) <==> (is_acceptable_form(username, email)
                && stored && delivered)
            &&& !is_acceptable_form(username, email) ==> last == ActionModel::Reply(refused_form_reply())
            &&& is_acceptable_form(username, email) && !(stored && delivered) ==> last
                == ActionModel::Reply(ReplyModel::InternalServerError)
        }),
{
}

/// Only an accepted form is stored, with the submitted name and address,
/// and it is the first thing done.
pub proof fn law_only_accepted_forms_are_stored(username: Seq<char>, email: Seq<char>, stored: bool, delivered: bool)
    ensures
        ({
            let run = serve(username, email, stored, delivered);
            forall|i: int| 0 <= i < run.len() && #[trigger] run[i] is Store ==> i == 0
                && is_acceptable_form(username, email)
                && run[i] == ActionModel::Store(username, email)
        }),
{
}

/// The confirmation mail is sent only after the subscriber was stored,
/// to the submitted address, and its HTML and text parts carry the same
/// link.
pub proof fn law_confirmation_follows_store(username: Seq<char>, email: Seq<char>, stored: bool, delivered: bool)
    ensures
        ({
            let run = serve(username, email, stored, delivered);
            forall|i: int| 0 <= i < run.len() && #[trigger] run[i] is Deliver ==> {
                &&& i == 1 && stored
                &&& run[0] == ActionModel::Store(username, email)
                &&& run[i] == ActionModel::Deliver(
                    email,
                    confirmation_subject(),
                    confirmation_link(),
                    confirmation_link(),
                )
            }
        }),
{
}

/// From any state, a mail is sent only in answer to a successful store,
/// to the address the state kept, and 200 is answered only in answer to a
/// successful delivery.
pub proof fn law_step_order(s: StateModel, e: EventModel)
    requires
        accepts_event(s, e),
    ensures
        subscribe_next(s, e).1 is Deliver ==> e == EventModel::StoreFinished(true) && (s matches StateModel::AwaitingStore(m) && subscribe_next(s, e).1->Deliver_0 == m),
        subscribe_next(s, e).1 == ActionModel::Reply(ReplyModel::Success) ==> s is AwaitingDelivery && e == EventModel::DeliveryFinished(true),
        subscribe_next(s, e).1 is Store ==> s is AwaitingForm,
{
}

/// The confirmation mail has the subject "Hello Subscriber", and both of
/// its parts are the link `https://www.baidu.com`.
pub proof fn law_confirmation_content()
    ensures
        confirmation_subject() == "Hello Subscriber"@,
        confirmation_link() == "https://www.baidu.com"@,
{
}

/// An answered request waits for nothing more.
pub proof fn law_finished_accepts_nothing(e: EventModel)
    ensures
        !accepts_event(StateModel::Finished, e),
{
}

} // verus!
