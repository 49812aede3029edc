//! Control-plane client core for a deployment-management service.
//!
//! The crate covers the decision logic of the client: completing a
//! partially-specified deployment request from backend-supplied defaults
//! (`resolve`), rendering sync-status progress lines and driving the
//! status-polling loop (`poll`, `text`), and mapping parsed commands to
//! planned API calls (`dispatch`). Network transport, argument parsing and
//! output rendering are outside collaborators and live with the caller.

pub mod dispatch;
pub mod error;
pub mod poll;
pub mod request;
pub mod resolve;
pub mod text;
