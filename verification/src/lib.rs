//! Project identity and remote-linking core.
//!
//! Two independent components share this crate: the durable data model of a
//! project (its identity, filesystem location, authentication preference and
//! cached synchronization state), and a stateless client for the device
//! authorization handshake used to link a project to a code-hosting account.

pub mod device;
pub mod project;
