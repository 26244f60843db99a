//! Builders for the host-side convenience calls the guest makes: each
//! function assembles the exact [`crate::host::HostCall`] — snippet,
//! encoded arguments, result shape — for one host operation. String
//! arguments are passed as zero-copy memory views.

pub mod console;
pub mod dom;
pub mod history;
pub mod http;
pub mod local_storage;
pub mod utils;
pub mod window;
