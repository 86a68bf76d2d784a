//! Assembly and decoding of Radeon PM4 command streams.
//!
//! The library builds a binary GPU command stream (a sequence of 32-bit
//! hardware command packets), routes register writes to the packet family
//! that owns the register's address window, tracks the out-of-band memory
//! relocations the kernel driver must patch, packages the finished stream
//! into the three-chunk submission payload, and decodes a raw word stream
//! back into discrete packets.

pub mod cs;
pub mod pm4;
pub mod router;
pub mod submit;
