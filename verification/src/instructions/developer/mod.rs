//! What developers do.

pub mod pay_subscription;

pub use pay_subscription::{pay_subscription, PaySubscription};
