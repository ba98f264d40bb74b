//! Core of a rolling "instant replay" screen recorder: a fixed-capacity
//! eviction buffer of compressed frames shared between a capture loop and an
//! export coordinator, the capture-side pacing and bookkeeping, the
//! configure/frame/end command protocol fed to the encode pipeline, and the
//! naming of export artifacts.
pub mod frame;
pub mod buffer;
pub mod capture;
pub mod encode;
pub mod naming;
pub mod export;
