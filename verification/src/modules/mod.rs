//! The operations of the API, grouped as the API groups them.

pub mod installments;
pub mod orders;
pub mod payments;
pub mod subscriptions;
pub mod validators;
pub mod webhooks;

pub use installments::InstallmentModule;
pub use orders::OrderModule;
pub use payments::PaymentModule;
pub use subscriptions::SubscriptionModule;
pub use validators::Validators;
pub use webhooks::WebhookModule;
