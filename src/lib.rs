//! Governance of one configuration record kept in an account whose address is
//! derived from a label, a base identity and a bump byte.
//!
//! The record is read and written through an explicit byte layout, every state
//! change is gated by ownership, address derivation, signer and admin checks,
//! and the instruction payloads have fixed little-endian layouts.
pub mod accounts;
pub mod address;
pub mod config;
pub mod errors;
pub mod guard;
pub mod initialize_config;
pub mod instructions;
pub mod layout;
pub mod sdk;
pub mod update_config;
