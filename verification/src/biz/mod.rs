pub mod email_client;
