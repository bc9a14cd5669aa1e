pub mod common_response;
