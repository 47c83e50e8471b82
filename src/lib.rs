//! A/B/C boot selection for a microcontroller with 2 MiB of flash, and the
//! host-side codec that lays out and checks the flash image it boots from.
//!
//! The device side chooses between two redundant metadata blocks, repairs the
//! stale one, picks a firmware slot by checksum and drives the flash
//! controller; the host side builds and verifies the 2 MiB image.

pub mod layout;
pub mod crc;
pub mod metadata;
pub mod pages;
pub mod boot;
pub mod flash;
pub mod binary;
pub mod builder;
pub mod cli;
pub mod watchdog;
