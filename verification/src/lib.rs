//! The Ollama model provider of an inference gateway.
//!
//! The library turns gateway requests into Ollama chat requests, decides what a reply or a
//! stream event means, and says what each of them is worth to the gateway. It performs no
//! input or output itself.

pub mod answer_laws;
pub mod call_laws;
pub mod conversion_laws;
pub mod credentials;
pub mod error;
pub mod inference;
pub mod json;
pub mod laws;
pub mod message;
pub mod prompt_laws;
pub mod provider;
pub mod request;
pub mod response;
pub mod stream;
pub mod text;
pub mod tool;
pub mod wire;
pub mod wire_laws;
