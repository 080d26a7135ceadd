//! Host-side engine of a low-latency remote-control link between a desktop
//! and an Android emulator: profile negotiation and the session lifecycle,
//! control-frame checks, viewport mapping, the touch-gesture runtime and the
//! device bridge, and the LAN discovery and connection protocol.
pub mod adb;
pub mod bridge;
pub mod capture;
pub mod cli;
pub mod encode;
pub mod lan;
pub mod mapping;
pub mod minitouch;
pub mod pipeline;
pub mod profile;
pub mod protocol;
pub mod session;
pub mod text;
pub mod touch;
pub mod transport;
