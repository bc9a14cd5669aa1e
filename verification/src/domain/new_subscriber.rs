use vstd::prelude::*;
use crate::domain::subscriber_email::{SubscriberEmail, has_user_and_domain, invalid_email_detail, validator_accepts_email};
use crate::domain::subscriber_name::{SubscriberUserName, is_valid_user_name, name_rejection};
use crate::exception::biz_exception::{BizError, BizResult};
use crate::routes::subscriptions::UserInfo;

verus! {

/// A subscriber whose name and address were both checked.
#[derive(Debug)]
pub struct NewSubscriber {
    pub email: SubscriberEmail,
    pub username: SubscriberUserName,
}

/// A submitted form yields a subscriber exactly when its name and its
/// address are both accepted.  An accepted address always has a non-empty
/// user part and domain around an `@`.
pub open spec fn is_acceptable_form(username: Seq<char>, email: Seq<char>) -> bool {
    is_valid_user_name(username) && validator_accepts_email(email) && has_user_and_domain(email)
}

impl NewSubscriber {
    /// Checks a submitted form: first the name, then the address.  The
    /// first refusal is returned; otherwise the subscriber carries the
    /// submitted name and address unchanged.
    pub fn try_from(user_info: UserInfo) -> (r: BizResult<NewSubscriber>)
        ensures
            match r {
                Ok(s) => is_acceptable_form(user_info.username@, user_info.email@)
                    && s.username@ == user_info.username@ && s.email@ == user_info.email@,
                Err(e) => !is_acceptable_form(user_info.username@, user_info.email@)
                    && e is ParamInvalid
                    && e->ParamInvalid_0@ == match name_rejection(user_info.username@) {
                        Some(detail) => detail,
                        None => invalid_email_detail(user_info.email@),
                    },
            },
    {
        let UserInfo { username, email } = user_info;
        let subscriber_username = SubscriberUserName::parse(username)?;
        let subscriber_email = SubscriberEmail::parse(email)?;
        Ok(NewSubscriber { email: subscriber_email, username: subscriber_username })
    }
}

} // verus!
