//! Resolution of Lightning Addresses (`user@domain`) into payable invoices,
//! following the LNURL-pay discovery and callback exchange.
//!
//! Network transport and JSON decoding happen outside this library; it takes
//! the decoded responses as plain values and decides every step from them.

pub mod error;
pub mod address;
pub mod descriptor;
pub mod invoice;
pub mod lightning_address;
