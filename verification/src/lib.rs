//! A Game-of-Life simulation core built around a parallel compute
//! accelerator: a boolean grid model, a byte codec matching the
//! accelerator's buffer layout, and the generation-step protocol that
//! drives upload, dispatch, copy-back and decode.

pub mod codec;
pub mod grid;
pub mod life;
pub mod protocol;
