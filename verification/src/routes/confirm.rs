use vstd::prelude::*;
use crate::routes::subscriptions::{HttpReply, ReplyModel};

verus! {

/// The answer to a subscription confirmation: 200 with an empty body,
/// whatever the token.
pub fn confirm(_subscription_token: String) -> (r: HttpReply)
    ensures
        r@ == ReplyModel::Success,
{
    HttpReply::Success
}

} // verus!
