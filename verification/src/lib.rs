//! How many bytes can be read from a socket without blocking?
//!
//! The kernel answers that question through the `FIONREAD` control request.
//! This crate is the part of the query that can be reasoned about: it takes
//! what the request left behind, exactly as the platform handed it back, and
//! says what the caller is owed: a byte count, or the platform's error
//! with its code untouched. It never touches a handle and keeps no state, so
//! the same reply always reads the same way.
//!
//! There is one backend per kind of platform, and a caller builds against
//! exactly one of them:
//!
//! * [`unix_impl`] reads the reply of `ioctl(fd, FIONREAD, &mut len)`;
//! * [`windows_impl`] reads the reply of `ioctlsocket(socket, FIONREAD, &mut len)`;
//! * [`placeholder_impl`] stands in where neither request exists.
//!
//! [`agreement`] proves that the two real backends cannot be told apart by
//! what they return.

pub mod error;
pub mod agreement;
pub mod placeholder_impl;
pub mod unix_impl;
pub mod windows_impl;

pub use error::QueryError;
