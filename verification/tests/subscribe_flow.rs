use mail_server::biz::email_client::{EmailClient, AUTHORIZATION_HEADER};
use mail_server::domain::new_subscriber::NewSubscriber;
use mail_server::domain::subscriber_email::SubscriberEmail;
use mail_server::routes::confirm::confirm;
use mail_server::routes::subscriptions::{
    new_subscription_record, subscription_record, HttpReply, SubscribeAction, SubscribeEvent, SubscribeState,
    SubscriptionStatus, UserInfo,
};

fn form(username: &str, email: &str) -> SubscribeEvent {
    SubscribeEvent::FormSubmitted(UserInfo { username: username.to_string(), email: email.to_string() })
}

fn step(state: SubscribeState, event: SubscribeEvent) -> (SubscribeState, SubscribeAction) {
    assert!(state.accepts(&event));
    state.step(event)
}

#[test]
fn refused_forms_are_answered_bad_request() {
    for (u, e) in [("jason", ""), ("", "gwj@gmail.com"), ("", ""), ("jason", "@gmail.com")] {
        let (state, action) = step(SubscribeState::new(), form(u, e));
        assert!(matches!(state, SubscribeState::Finished));
        match action {
            SubscribeAction::Reply(HttpReply::BadRequest(body)) => {
                assert_eq!(body.code, 500);
                assert_eq!(body.msg, "参数异常");
                assert_eq!(body.data, None);
            }
            _ => panic!("expected a 400 answer"),
        }
        assert!(!state.accepts(&SubscribeEvent::StoreFinished(true)));
    }
}

#[test]
fn accepted_form_is_stored_then_confirmed() {
    let (state, action) = step(SubscribeState::new(), form("jason", "gwj@gmail.com"));
    match action {
        SubscribeAction::Store(s) => {
            assert_eq!(s.username.as_ref(), "jason");
            assert_eq!(s.email.as_ref(), "gwj@gmail.com");
        }
        _ => panic!("expected a store"),
    }
    let (state, action) = step(state, SubscribeEvent::StoreFinished(true));
    match action {
        SubscribeAction::Deliver(m) => {
            assert_eq!(m.recipient.as_ref(), "gwj@gmail.com");
            assert_eq!(m.subject, "Hello Subscriber");
            assert_eq!(m.html_content, "https://www.baidu.com");
            assert_eq!(m.html_content, m.text_content);
        }
        _ => panic!("expected a delivery"),
    }
    let (state, action) = step(state, SubscribeEvent::DeliveryFinished(true));
    assert!(matches!(action, SubscribeAction::Reply(HttpReply::Success)));
    assert!(matches!(state, SubscribeState::Finished));
}

#[test]
fn failed_store_is_answered_internal_error() {
    let (state, _) = step(SubscribeState::new(), form("jason", "gwj@gmail.com"));
    let (state, action) = step(state, SubscribeEvent::StoreFinished(false));
    assert!(matches!(action, SubscribeAction::Reply(HttpReply::InternalServerError)));
    assert!(!state.accepts(&SubscribeEvent::DeliveryFinished(true)));
}

#[test]
fn failed_delivery_is_answered_internal_error() {
    let (state, _) = step(SubscribeState::new(), form("jason", "gwj@gmail.com"));
    let (state, _) = step(state, SubscribeEvent::StoreFinished(true));
    let (_, action) = step(state, SubscribeEvent::DeliveryFinished(false));
    assert!(matches!(action, SubscribeAction::Reply(HttpReply::InternalServerError)));
}

#[test]
fn states_wait_for_their_own_event() {
    let s = SubscribeState::new();
    assert!(!s.accepts(&SubscribeEvent::StoreFinished(true)));
    assert!(!s.accepts(&SubscribeEvent::DeliveryFinished(true)));
    assert!(!SubscribeState::Finished.accepts(&form("jason", "gwj@gmail.com")));
}

fn subscriber() -> NewSubscriber {
    NewSubscriber::try_from(UserInfo { username: "jason".to_string(), email: "gwj@gmail.com".to_string() })
        .unwrap()
}

#[test]
fn record_holds_subscriber_and_waits() {
    let r = subscription_record(&subscriber(), 42, 1_700_000_000_000_000);
    assert_eq!(r.id, 42);
    assert_eq!(r.email, "gwj@gmail.com");
    assert_eq!(r.username, "jason");
    assert_eq!(r.subscribed_at_micros, 1_700_000_000_000_000);
    assert!(matches!(r.status, SubscriptionStatus::Waiting));
}

#[test]
fn new_record_has_random_uuid() {
    let a = new_subscription_record(&subscriber());
    let b = new_subscription_record(&subscriber());
    assert_eq!(uuid::Uuid::from_u128(a.id).get_version_num(), 4);
    assert_eq!((a.id >> 76) & 0xf, 4);
    assert_eq!((a.id >> 62) & 0x3, 2);
    assert_ne!(a.id, b.id);
    assert!(matches!(a.status, SubscriptionStatus::Waiting));
    assert!(a.subscribed_at_micros > 1_600_000_000_000_000);
}

#[test]
fn email_request_for_recipient() {
    let sender = SubscriberEmail::parse("me@example.com".to_string()).unwrap();
    let client = EmailClient::new("http://127.0.0.1:9000".to_string(), sender, "fake token".to_string());
    let to = SubscriberEmail::parse("gwj@gmail.com".to_string()).unwrap();
    let d = client.send_email(&to, "s".to_string(), "<p>h</p>".to_string(), "t".to_string());
    assert_eq!(d.url, "http://127.0.0.1:9000/email");
    assert_eq!(d.authorization_token, "fake token");
    assert_eq!(d.body.from, "me@example.com");
    assert_eq!(d.body.to, "gwj@gmail.com");
    assert_eq!(d.body.subject, "s");
    assert_eq!(d.body.html_body, "<p>h</p>");
    assert_eq!(d.body.text_body, "t");
    assert_eq!(AUTHORIZATION_HEADER, "X-Postmark-Server-Token");
}

#[test]
fn confirmation_is_always_ok() {
    assert!(matches!(confirm("any".to_string()), HttpReply::Success));
}

#[test]
fn address_without_user_part_is_answered_bad_request() {
    let (state, action) = step(SubscribeState::new(), form("jason", "@gmail.com"));
    assert!(matches!(state, SubscribeState::Finished));
    match action {
        SubscribeAction::Reply(HttpReply::BadRequest(body)) => {
            assert_eq!(body.code, 500);
            assert_eq!(body.msg, "参数异常");
            assert_eq!(body.data, None);
        }
        _ => panic!("expected a 400 answer"),
    }
}

#[test]
fn stored_time_is_not_before_epoch() {
    assert!(new_subscription_record(&subscriber()).subscribed_at_micros >= 0);
}
