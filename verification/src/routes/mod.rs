pub mod confirm;
pub mod subscriptions;
pub mod subscription_laws;
