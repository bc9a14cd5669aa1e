use vstd::prelude::*;

verus! {

/// Errors of the subscription service.
#[derive(Debug)]
pub enum BizError {
    /// Any other error; the message of the underlying error is kept.
    Other(String),
    /// An error of unknown origin.
    UnknownError,
    /// A request parameter was rejected; the payload says why.
    ParamInvalid(String),
}

/// Result type of the service.
pub type BizResult<T> = Result<T, BizError>;

/// The text an error is displayed as.  A rejected parameter is shown by
/// its fixed title only; its detail stays in the payload.
pub open spec fn biz_error_message(e: BizError) -> Seq<char> {
    match e {
        BizError::Other(m) => m@,
        BizError::UnknownError => "未知错误"@,
        BizError::ParamInvalid(_) => "参数异常"@,
    }
}

impl BizError {
    /// The text this error is displayed as.
    pub fn to_string(&self) -> (r: String)
        ensures
            r@ == biz_error_message(*self),
    {
        match self {
            BizError::Other(m) => m.clone(),
            BizError::UnknownError => String::from_str("未知错误"),
            BizError::ParamInvalid(_) => String::from_str("参数异常"),
        }
    }
}

} // verus!
