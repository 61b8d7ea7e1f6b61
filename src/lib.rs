//! Socket address marshalling and socket-call result handling.
//!
//! The library turns portable socket addresses into the byte layout that the
//! operating system's socket calls take (`sockaddr_in` / `sockaddr_in6`) and
//! back, translates raw call results into errors, and describes the socket
//! options that the builder extension traits set.

pub mod bytes;
pub mod addr;
pub mod sys;
pub mod unix;
