use vstd::prelude::*;
use validator::ValidateEmail;
use crate::exception::biz_exception::{BizError, BizResult};

verus! {

/// Whether `validator`'s e-mail check (`ValidateEmail::validate_email`,
/// the HTML5 rule with internationalised domains) accepts the text `s`.
pub uninterp spec fn validator_accepts_email(s: Seq<char>) -> bool;

/// An address has a user part and a domain part around an `@`, both
/// non-empty.
pub open spec fn has_user_and_domain(s: Seq<char>) -> bool {
    exists|i: int| 0 < i && i + 1 < s.len() && #[trigger] s[i] == '@'
}

/// Calls `validator::ValidateEmail::validate_email` on `s`.  The result is
/// named `validator_accepts_email`; the crate's source also shows that an
/// accepted address has a non-empty user part before its last `@` and a
/// non-empty domain part after it.
#[verifier::external_body]
fn validate_email(s: &str) -> (r: bool)
    ensures
        r == validator_accepts_email(s@),
        r ==> has_user_and_domain(s@),
{
    s.validate_email()
}

/// The text a refused address is reported with.
pub open spec fn invalid_email_detail(s: Seq<char>) -> Seq<char> {
    s + " is not a valid subscriber email."@
}

/// A subscriber's e-mail address, checked by `SubscriberEmail::parse`.
#[derive(Debug)]
pub struct SubscriberEmail(String);

impl SubscriberEmail {
    #[verifier::type_invariant]
    spec fn inv(self) -> bool {
        validator_accepts_email(self.0@) && has_user_and_domain(self.0@)
    }
}

impl View for SubscriberEmail {
    type V = Seq<char>;

    open spec fn view(&self) -> Seq<char> {
        self.text()
    }
}

impl SubscriberEmail {
    /// The characters of the address.
    pub closed spec fn text(&self) -> Seq<char> {
        self.0@
    }

    /// Checks an e-mail address with `validator`; a refused address is a
    /// `ParamInvalid` that quotes it.  An accepted address has a non-empty
    /// user part and a non-empty domain around an `@`, so an address such as
    /// `@gmail.com` is always refused.
    pub fn parse(s: String) -> (r: BizResult<SubscriberEmail>)
        ensures
            match r {
                Ok(email) => validator_accepts_email(s@) && has_user_and_domain(s@) && email@ == s@,
                Err(e) => !validator_accepts_email(s@) && (e matches BizError::ParamInvalid(detail)
                    && detail@ == invalid_email_detail(s@)),
            },
    {
        if validate_email(s.as_str()) {
            Ok(SubscriberEmail(s))
        } else {
            Err(BizError::ParamInvalid(s.concat(" is not a valid subscriber email.")))
        }
    }

    /// A second copy of the address.
    pub fn clone(&self) -> (r: SubscriberEmail)
        ensures
            r@ == self@,
    {
        proof { use_type_invariant(self); }
        SubscriberEmail(self.0.clone())
    }

    /// The address as text.
    pub fn as_ref(&self) -> (r: &str)
        ensures
            r@ == self@,
            validator_accepts_email(r@),
            has_user_and_domain(r@),
    {
        proof { use_type_invariant(self); }
        self.0.as_str()
    }
}

} // verus!
