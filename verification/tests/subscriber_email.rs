use mail_server::domain::new_subscriber::NewSubscriber;
use mail_server::domain::subscriber_email::SubscriberEmail;
use mail_server::exception::biz_exception::BizError;
use mail_server::routes::subscriptions::UserInfo;

#[test]
fn valid_email_is_accepted() {
    let e = SubscriberEmail::parse("gwj@gmail.com".to_string()).unwrap();
    assert_eq!(e.as_ref(), "gwj@gmail.com");
    assert_eq!(e.clone().as_ref(), "gwj@gmail.com");
}

#[test]
fn email_without_user_part_is_refused() {
    match SubscriberEmail::parse("@gmail.com".to_string()) {
        Err(BizError::ParamInvalid(d)) => assert_eq!(d, "@gmail.com is not a valid subscriber email."),
        _ => panic!("expected a refusal"),
    }
}

#[test]
fn email_without_at_sign_is_refused() {
    assert!(SubscriberEmail::parse("gmail.com".to_string()).is_err());
    assert!(SubscriberEmail::parse("".to_string()).is_err());
    assert!(SubscriberEmail::parse("jason@".to_string()).is_err());
}

fn form(username: &str, email: &str) -> UserInfo {
    UserInfo { username: username.to_string(), email: email.to_string() }
}

#[test]
fn form_with_valid_fields_gives_subscriber() {
    let s = NewSubscriber::try_from(form("jason", "gwj@gmail.com")).unwrap();
    assert_eq!(s.username.as_ref(), "jason");
    assert_eq!(s.email.as_ref(), "gwj@gmail.com");
}

#[test]
fn form_name_is_checked_before_email() {
    match NewSubscriber::try_from(form("", "@gmail.com")) {
        Err(BizError::ParamInvalid(d)) => assert_eq!(d, "姓名为空"),
        _ => panic!("expected a refusal"),
    }
    match NewSubscriber::try_from(form("jason", "@gmail.com")) {
        Err(BizError::ParamInvalid(d)) => assert_eq!(d, "@gmail.com is not a valid subscriber email."),
        _ => panic!("expected a refusal"),
    }
}
