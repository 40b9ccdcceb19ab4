//! Cipher-suite registry and negotiation for a TLS endpoint.
//!
//! The crate enumerates every supported cipher suite, narrows candidate
//! lists by protocol version and signature algorithm, selects the single
//! suite both peers will use, and decides whether a session may resume
//! under another suite.

pub mod enums;

pub mod crypto;

pub mod seqs;

pub mod suites;

pub mod catalog;

pub mod negotiation;
