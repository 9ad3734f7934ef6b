//! Verified core of a small contact-management service.
//!
//! The crate models the contacts table and the decision logic of the five
//! contact endpoints (list, show, store, update, destroy) together with the
//! validated multipart upload pipeline. Network, database and disk I/O live
//! outside this crate; the functions here take the values that I/O produced
//! and decide what happens next.

pub mod contact;
pub mod handler;
pub mod laws;
pub mod store;
pub mod upload;
