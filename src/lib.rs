//! A header-driven forwarding proxy: the decisions of one request, from the
//! `X-Target-URL` header to the response that goes back to the caller.

pub mod forward;
pub mod laws;
pub mod response;
pub mod target;
