//! An SMTP submission endpoint that relays accepted messages to the Lark mail API.
//!
//! The crate holds the decisions of the relay: the per-connection SMTP session,
//! the lifecycle of the two API credentials and the composition of the outbound
//! send request. Sockets, HTTP and files stay with the caller, who feeds events
//! in and carries actions out.

pub mod codec;
pub mod dispatch;
pub mod json;
pub mod lark_api_mail;
pub mod mime;
pub mod relay;
pub mod session_laws;
pub mod smtp_server;
pub mod text;
