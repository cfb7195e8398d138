//! Registers whose content the driver takes apart itself.
pub mod tx_identity;
