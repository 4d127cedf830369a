//! Core model for a live TCP capture boundary: a unified representation of
//! IPv4 and IPv6 addresses with lossless conversion to a tagged sum type,
//! handles and verified snapshot lookups for the capture engine's devices,
//! and the identity and lifecycle record of an observed TCP connection with
//! canonical endpoint ordering, so both packet directions of one flow map to
//! one identity.

pub mod address;
pub mod connection;
pub mod device;
