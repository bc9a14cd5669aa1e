pub mod biz_exception;
