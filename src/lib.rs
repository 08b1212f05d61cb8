//! Secure streaming pipeline of a native music client: key unwrapping, offset-aware
//! AES-CTR decryption, the current-track and preload state, the loopback relay's
//! per-connection decisions, the audio engine's event synthesis and the controller's
//! message handling.

pub mod cipher;
pub mod keys;
pub mod state;
pub mod relay;
pub mod player;
pub mod controller;
