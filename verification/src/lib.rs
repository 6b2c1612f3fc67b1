//! A TPM-style PCR (Platform Configuration Register) bank simulator.
//!
//! The library models an append-only, hash-chained measurement ledger:
//! a bank of 24 registers that can only be advanced by a one-way extend
//! operation, together with the hex validation and file-line parsing
//! pipeline that feeds measurements into it, and a one-shot hash
//! calculator sharing the same digest providers.

pub mod digest;
pub mod file_processor;
pub mod hash;
pub mod hexcodec;
pub mod simulator;
pub mod text;
