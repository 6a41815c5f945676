//! Quote-to-submission pipeline for token swaps routed through a remote
//! quoting service: deterministic quote URLs, the error-or-value probe on
//! service replies, transaction decoding, instruction assembly, signing-key
//! resolution and the simulate-before-send submission controller.
pub mod codec;
pub mod error;
pub mod instructions;
pub mod json;
pub mod keys;
pub mod quote;
pub mod settings;
pub mod submission;
pub mod swap;
