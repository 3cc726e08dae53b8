//! Core logic of a firmware updater for RP2-class boards: a time-to-live
//! cache for release listings, the selection of release assets by a filter
//! pattern, download progress accounting, discovery of the bootloader volume
//! among mounted volumes, and the write-then-wait protocol that flashes an
//! image. The hosting program performs the I/O and drives these functions
//! with what it observed.

pub mod text;
pub mod pattern;
pub mod json;
pub mod release;
pub mod cache;
pub mod download;
pub mod drive;
pub mod flash;
