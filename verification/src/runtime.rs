//! What runs on top of the event system while the application is live.

pub mod input;
