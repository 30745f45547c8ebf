//! Verified core of a mimalloc V3 binding: the decisions that surround the
//! calls into the C allocator, the text handling of its statistics output,
//! and the option table.

pub mod windows_link_libs;
pub mod utf8_lossy;
pub mod sys;
pub mod api;
pub mod heap;
pub mod output;
