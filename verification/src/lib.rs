//! A uniform success/failure envelope for query-style operations.
//!
//! The envelope carries an explicit success flag alongside an optional
//! payload and an optional numeric error code; exactly one of the two
//! optionals is populated at any time.

pub mod response;
