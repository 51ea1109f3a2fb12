//! Verified core of a certificate-issuance tool for a running reverse proxy.
//!
//! The library models the control-channel protocol (correlated envelope /
//! answer pairs), the order sequencer that drives scripted command sequences
//! over that channel, the single-shot HTTP challenge responder, and the
//! top-level orchestration state machine.  All I/O (the control socket, the
//! HTTP listener, the certificate-authority exchange, the file store) lives
//! outside the library; callers feed events in and carry actions out.

pub mod certificate;
pub mod messages;
pub mod orchestrator;
pub mod responder;
pub mod sequencer;
pub mod text;
