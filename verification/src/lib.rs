//! Email backend binding (`kind: email`): sends mail over SMTP and reads a mailbox over IMAP.
//!
//! This crate decides; whoever holds the connections does what it says. A binding is registered with
//! [`EmailBackendPlugin::register_profile`], which holds its spec to the rules. A call of it begins
//! with [`EmailBackendPlugin::begin`] and asks for [`call::Work`]: one message that is to be
//! delivered, or a conversation with an IMAP server that [`imap::ImapRead`] leads step by step. What
//! came of the work is put into the envelope that the call is answered with, and into what the host
//! is told of it.
//!
//! What `serde_json`, `lettre`, `chrono`, `rustls` and the standard library do is not proved: the
//! items that call them say what is relied on.
pub mod backend;
pub mod call;
pub mod email;
pub mod envelope;
pub mod failure;
pub mod imap;
pub mod json;
pub mod laws;
pub mod observe;
pub mod plugin;
pub mod profile;
pub mod smtp;
pub mod text;
pub mod types;
pub mod wire;

pub use plugin::EmailBackendPlugin;
pub use types::{EmailBackendSpec, EmailOp, TlsMode};
