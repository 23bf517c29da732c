//! A stock monitor: pages are polled, checked for an out-of-stock marker, and a
//! webhook is notified while a product is available.
pub mod config;
pub mod notify;
pub mod poller;
pub mod stock;
