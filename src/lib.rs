//! Connection configuration and request translation for a sandboxed
//! Kubernetes events client.
//!
//! The client runs inside a host that grants outbound HTTP as a capability.
//! This library derives the mutual-TLS identity and server trust anchor from
//! a cluster configuration, builds the trust record handed to the host, and
//! turns a generic HTTP request into the restricted request shape that the
//! host accepts.

pub mod credential;
pub mod kube_config;
pub mod request;
pub mod events;
