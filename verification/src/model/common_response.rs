use vstd::prelude::*;
use crate::exception::biz_exception::{BizError, biz_error_message};

verus! {

/// The envelope every JSON answer of the service is sent in.
pub struct CommonResponse<T> {
    pub code: u16,
    pub msg: String,
    pub data: Option<T>,
}

/// The code of a successful answer.
pub open spec fn success_code() -> u16 {
    0
}

/// The code of an answer that reports an error.
pub open spec fn error_code() -> u16 {
    500
}

impl<T> CommonResponse<T> {
    /// A successful answer carrying `data`.
    pub fn success_response(data: Option<T>) -> (r: CommonResponse<T>)
        ensures
            r.code == success_code(),
            r.msg@ == "Success"@,
            r.data == data,
    {
        CommonResponse { code: 0, msg: String::from_str("Success"), data }
    }
}

impl CommonResponse<String> {
    /// An answer reporting `err`: its text is the error's display text and
    /// it carries no data.
    pub fn error_response(err: BizError) -> (r: CommonResponse<String>)
        ensures
            r.code == error_code(),
            r.msg@ == biz_error_message(err),
            r.data is None,
    {
        CommonResponse { code: 500, msg: err.to_string(), data: None }
    }

    /// A successful answer without data.
    pub fn success_response_without_data() -> (r: CommonResponse<String>)
        ensures
            r.code == success_code(),
            r.msg@ == "Success"@,
            r.data is None,
    {
        Self::success_response(None)
    }
}

} // verus!
