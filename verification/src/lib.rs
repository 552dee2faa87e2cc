//! Verified core of a Limine boot-protocol binding.
//!
//! The boot loader talks to the kernel through fixed-layout records in
//! memory. This crate holds the part of that conversation that can be
//! reasoned about: possibly-absent pointers to loader-owned records, the
//! request/response handshake for framebuffer discovery, and the decoding
//! of a response into its entries. Addresses are plain integers and a
//! pointee is a shared reference that lives for the rest of the program,
//! which is exactly what the protocol promises of every record it hands
//! out.

pub mod framebuffer;
pub mod ptr;
