//! A small HTTP service as a verified library: three endpoints (a static
//! page, a health report with the process uptime, and a ping), answered by
//! pure functions from a request to a response.

pub mod config;
pub mod cors;
pub mod handlers;
pub mod http;
pub mod json;
pub mod router;
pub mod text;
pub mod time;
pub mod uptime;
