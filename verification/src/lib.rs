//! The verified core of a binding to the VOICEVOX speech-synthesis engine.
//!
//! The engine is a native library, and nothing here calls it. An operation is
//! prepared into a call, the values that an entry point of the engine is to
//! receive; whoever holds the engine makes the call and finishes it with what
//! came back. What is prepared and what a finished call comes to are proved
//! here, for every answer that the engine can give.

pub mod call;
pub mod engine;
pub mod error;
pub mod laws;
pub mod lifecycle;
pub mod options;
pub mod text;

pub use engine::VoiceVoxCore;
pub use error::Error;
pub use options::AccelationMode;
pub use options::CpuNumThreads;
pub use options::InitializeOptions;
