use mail_server::exception::biz_exception::BizError;
use mail_server::model::common_response::CommonResponse;

#[test]
fn success_response_carries_data() {
    let r = CommonResponse::success_response(Some(7u32));
    assert_eq!(r.code, 0);
    assert_eq!(r.msg, "Success");
    assert_eq!(r.data, Some(7));
}

#[test]
fn success_response_without_data_is_empty() {
    let r = CommonResponse::success_response_without_data();
    assert_eq!(r.code, 0);
    assert_eq!(r.msg, "Success");
    assert_eq!(r.data, None);
}

#[test]
fn error_response_shows_error_text() {
    let r = CommonResponse::error_response(BizError::ParamInvalid("姓名为空".to_string()));
    assert_eq!(r.code, 500);
    assert_eq!(r.msg, "参数异常");
    assert_eq!(r.data, None);

    let r = CommonResponse::error_response(BizError::UnknownError);
    assert_eq!(r.msg, "未知错误");

    let r = CommonResponse::error_response(BizError::Other("db down".to_string()));
    assert_eq!(r.msg, "db down");
}

#[test]
fn biz_error_display_text() {
    assert_eq!(BizError::UnknownError.to_string(), "未知错误");
    assert_eq!(BizError::ParamInvalid("x".to_string()).to_string(), "参数异常");
    assert_eq!(BizError::Other("boom".to_string()).to_string(), "boom");
}
