//! Subscription, quota and licensing rules of the Vocrit AI desktop client.

pub mod clock;
pub mod device;
pub mod laws;
pub mod license;
pub mod shortcut;
pub mod subscription;
pub mod text;
