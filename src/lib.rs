//! A bump allocator tuned to one cyclic allocation workload.
//!
//! The heap is split into a fixed-size front segment, for the workload's
//! recurring records and its even-position byte requests, and a trailing
//! segment for everything else. Each segment is a bump region that is
//! reclaimed as a whole when its last live allocation is freed.
pub mod layout;
pub mod allocator;
pub mod laws;


