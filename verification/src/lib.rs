//! Diagnostic error model for a DID-web setup pipeline: a closed set of
//! error kinds, each carrying the offending source text, a byte span into
//! it, and a human-readable message.

/// The error taxonomy, its constructors, and the rendering contract.
pub mod errors;
