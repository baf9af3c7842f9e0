//! Per-monitor desktop-duplication capture, verified against a plain-value
//! model of the foreign graphics subsystem.
//!
//! The foreign subsystem (adapters, outputs, devices, duplication sessions)
//! is reference counted and status-code driven. This crate models it as
//! explicit data — an object table with reference counts, an adapter as a
//! sequence of output slots, a duplication session as a queue of pending
//! frames — and proves the library's logic over that model: exactly one
//! release per handle, enumeration that keeps exactly the attached outputs,
//! strict acquire/release pairing, and the derivation of the CPU-readable
//! staging description.

pub mod capture;
pub mod com;
pub mod desc;
pub mod hresult;
pub mod output;
