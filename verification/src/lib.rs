//! Fixed-window admission control for outbound notifications.
//!
//! A [`NotificationService`] keeps, for every notification type, a quota and
//! a window length, and for every recipient of that type the quota left in
//! the recipient's current window. [`NotificationService::decide`] admits
//! or rejects one notification attempt at a caller-supplied time.
//!
//! The behaviour is stated over the mathematical model in [`model`]; what
//! holds of every table and every run of requests is proved in [`laws`].

pub mod laws;
pub mod model;
pub mod notification_service;

pub use crate::model::RateLimitView;
pub use crate::model::RecipientCounter;
pub use crate::notification_service::NotificationService;
pub use crate::notification_service::RateLimit;
