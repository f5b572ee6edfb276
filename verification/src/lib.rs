//! A bump arena allocator: one large region of address space is reserved
//! lazily, and allocations are served by advancing a monotonically
//! increasing offset into it. Memory is never reclaimed.

pub mod align;
pub mod bump;
pub mod laws;
