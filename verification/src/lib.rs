//! Last-level-cache coloring: the color universe derived from the cache
//! geometry, its write-once publication, and the address-translation
//! strategies of memory regions, one of which draws frames of active colors.

pub mod consts;
pub mod error;
pub mod colors;
pub mod cell;
pub mod llc_coloring;
pub mod memory;
pub mod arch;
