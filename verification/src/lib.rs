//! A memory-safe manager for a C-style variable-length record: one contiguous
//! buffer holding a fixed-size header (a region count) followed by a flexible
//! trailing array of fixed-size guest-memory region descriptors, as a kernel
//! acceleration interface expects to receive it in a single allocation.
//!
//! All slot access is bounds-checked and proved correct against a sequence
//! view of the descriptor slots; the raw byte layout is confined to the
//! construction and export paths.

pub mod codec;
pub mod table;
