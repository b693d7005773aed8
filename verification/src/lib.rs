//! Core logic for a voice-gateway backend: a per-user gateway session state
//! machine that turns join/leave requests into voice-state exchanges, a
//! presence cache, and a QR remote-authentication flow with its crypto steps.

pub mod crypto;
pub mod frames;
pub mod gateway;
pub mod jsonv;
pub mod presence;
pub mod qr_flow;
pub mod text;
pub mod wire;
