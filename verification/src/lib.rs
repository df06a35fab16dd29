//! MurmurHash3 (x86_32): a 32-bit non-cryptographic hash, as a one-shot
//! function over a byte buffer and as an incremental hasher whose result does
//! not depend on how the input is cut into writes.
//!
//! ```
//! use std::hash::Hasher;
//! use murmur3::{hash_bytes, Murmur3Hasher};
//!
//! let mut hasher = Murmur3Hasher::new(0);
//! hasher.write(b"hello ");
//! hasher.write(b"world");
//! assert_eq!(hasher.finish(), 1586663183);
//! assert_eq!(hash_bytes(b"hello world", 0), 1586663183);
//! ```

pub use self::murmur::{hash_bytes, HasherModel, Murmur3Hasher};

mod bytes;
pub mod laws;
pub mod mix;
pub mod murmur;
pub mod stream;
