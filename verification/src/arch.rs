//! What each architecture's cache identification registers say about the
//! last-level cache. The registers are read elsewhere; here their values
//! are taken apart.

pub mod aarch64;
pub mod loongarch64;
