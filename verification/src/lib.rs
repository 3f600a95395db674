//! A small waitlist signup library: entries keyed by a unique email address,
//! kept in descending order of last name, together with the request-handling
//! decisions (validation, flash messages, view contexts) of a signup site.

pub mod context;
pub mod entry;
pub mod handlers;
pub mod laws;
pub mod order;
pub mod store;
