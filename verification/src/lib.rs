//! AF_XDP sockets over a memfd-backed UMEM, as verified state machines.
//!
//! The system calls are made by the caller. The library decides which call comes
//! next and with what arguments, reads the replies, and says at every exit which
//! resource belongs to whom.

pub mod error;
pub mod laws;
pub mod mmap;
pub mod os;
pub mod restore;
pub mod ring;
pub mod socket;
pub mod sys;
pub mod text;
pub mod umem;
