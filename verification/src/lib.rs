//! Subscription-to-render pipeline for a live image preview client.
//!
//! Messages arrive from a publish/subscribe transport in one of two wire
//! shapes: a raw pixel buffer or a compressed container. Each message is
//! decoded into a normalized three-channel bitmap, and a small state machine
//! decides which render calls (resize, show, set-image) the display surface
//! receives. The transport and the windowing backend themselves stay outside
//! this library; the decoding rules and the per-item decisions are verified
//! here.

pub mod bitmap;
pub mod decode;
pub mod messages;
pub mod preview;
