//! Reset-to-application bootstrap and trap dispatch for RISC-V microcontrollers
//! with a vectored external interrupt controller.
//!
//! The library holds the decisions of the runtime, each with a contract:
//! - [`region`]: copy-in and zero-fill of memory regions at boot;
//! - [`pma`]: the memory-attribute entries that mark ranges non-cacheable;
//! - [`plic`]: the register sequence that brings up the interrupt controller;
//! - [`trap`]: the dispatch tables and the decision taken on every trap;
//! - [`boot`]: the ordered boot plan that ends in the application entry.
//!
//! The code that touches the hardware performs the steps these functions
//! decide.
pub mod boot;
pub mod config;
pub mod plic;
pub mod pma;
pub mod region;
pub mod trap;
