//! Mock server core for large-language-model provider APIs: a seeded fake-text
//! producer, the per-request fault pipeline, and the builders that turn a
//! conversation into a single completion or into an ordered list of stream
//! fragments.

pub mod cerebras;
pub mod claude;
pub mod clock;
pub mod config;
pub mod errors;
pub mod gemini;
pub mod generator;
pub mod intent;
pub mod openai;
pub mod pipeline;
pub mod random;
pub mod request;
pub mod response;
pub mod stream;
pub mod text;

pub use config::{Config, RuntimeState};
pub use errors::Provider;
pub use generator::ContentGenerator;
