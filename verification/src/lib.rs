//! Creation of single-use, encrypted, self-expiring secrets.
//!
//! The library accepts raw bytes, optional expiration bounds, an optional
//! password and the relevant request headers, and produces a fully formed
//! record together with a fresh symmetric key and the ciphertext. Everything
//! that can be stated about the result is stated in the contracts below;
//! randomness, the clock and the cipher itself come from outside crates
//! behind small trusted declarations.

pub mod content;
pub mod headers;
pub mod password;
pub mod policy;
pub mod sealing;
pub mod secret;
