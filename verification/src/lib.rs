//! The request and response rules of a small HTTPS-only static site:
//! the Strict-Transport-Security header on every answer of the encrypted
//! listener, the permanent redirect that the plaintext listener gives, and the
//! not-found page.

pub mod common_answers;
pub mod guards;
pub mod headers;
pub mod response;
pub mod security;
pub mod uri;
