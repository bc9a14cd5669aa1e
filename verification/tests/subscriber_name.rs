use mail_server::domain::subscriber_name::{SubscriberUserName, FORBIDDEN_CHARACTERS, MAX_NAME_LEN};
use mail_server::exception::biz_exception::BizError;

fn detail_of(r: Result<SubscriberUserName, BizError>) -> String {
    match r {
        Err(BizError::ParamInvalid(d)) => d,
        Err(_) => panic!("unexpected error kind"),
        Ok(_) => panic!("name was accepted"),
    }
}

#[test]
fn too_long_name_is_invalid() {
    let name = "a".repeat(MAX_NAME_LEN + 1);
    assert!(SubscriberUserName::parse(name).is_err());
}

#[test]
fn lg_max_name_len_is_valid() {
    let name = "a".repeat(MAX_NAME_LEN);
    assert!(SubscriberUserName::parse(name).is_ok());
}

#[test]
fn whitespace_only_name_is_invalid() {
    let name = " ".to_string();
    assert!(SubscriberUserName::parse(name).is_err());
}

#[test]
fn empty_only_name_is_invalid() {
    let name = "".to_string();
    assert!(SubscriberUserName::parse(name).is_err());
}

#[test]
fn contains_forbidden_characters_are_invalid() {
    for name in FORBIDDEN_CHARACTERS {
        assert!(SubscriberUserName::parse(name.to_string()).is_err());
    }
}

#[test]
fn valid_name_is_ok() {
    let name = "Jason Gao".to_string();
    assert!(SubscriberUserName::parse(name).is_ok());
}

#[test]
fn accepted_name_keeps_its_text() {
    let name = SubscriberUserName::parse("Jason Gao".to_string()).unwrap();
    assert_eq!(name.as_ref(), "Jason Gao");
    let again = SubscriberUserName::parse(name.as_ref().to_string()).unwrap();
    assert_eq!(again.as_ref(), "Jason Gao");
}

#[test]
fn blank_name_detail() {
    assert_eq!(detail_of(SubscriberUserName::parse("".to_string())), "姓名为空");
    assert_eq!(detail_of(SubscriberUserName::parse(" \t\n".to_string())), "姓名为空");
    // Unicode white space other than ASCII counts as blank too.
    assert_eq!(detail_of(SubscriberUserName::parse("\u{3000}\u{a0}\u{2009}".to_string())), "姓名为空");
}

#[test]
fn long_name_detail() {
    assert_eq!(detail_of(SubscriberUserName::parse("a".repeat(65))), "姓名超过64个字符");
}

#[test]
fn forbidden_name_detail() {
    assert_eq!(detail_of(SubscriberUserName::parse("Jason<Gao>".to_string())), "包含非法字符");
}

#[test]
fn blank_check_comes_before_length_check() {
    // 65 spaces: both blank and too long; blank is reported.
    assert_eq!(detail_of(SubscriberUserName::parse(" ".repeat(65))), "姓名为空");
}

#[test]
fn length_check_comes_before_forbidden_check() {
    let name = format!("{}/", "a".repeat(64));
    assert_eq!(detail_of(SubscriberUserName::parse(name)), "姓名超过64个字符");
}

#[test]
fn length_counts_characters_not_bytes() {
    // 64 three-byte characters are fine, 65 are not.
    assert!(SubscriberUserName::parse("高".repeat(64)).is_ok());
    assert!(SubscriberUserName::parse("高".repeat(65)).is_err());
}

#[test]
fn name_with_inner_spaces_is_not_blank() {
    assert!(SubscriberUserName::parse("  a  ".to_string()).is_ok());
}

#[test]
fn forbidden_characters_list() {
    assert_eq!(FORBIDDEN_CHARACTERS, ['/', '(', ')', ',', '"', '<', '>', '\\', '{', '}']);
    assert_eq!(MAX_NAME_LEN, 64);
}
