//! Telegram and Discord bot runtime substrate for Lingchong.
//!
//! The crate owns channel behaviour and bot-facing runtime surfaces: message
//! chunking, session partition keys, harness helpers and runtime
//! configuration. Text is modelled as sequences of Unicode scalar values.

pub mod channels;
pub mod cli;
pub mod decimal;
pub mod gateway;
pub mod harness;
pub mod runtime;
pub mod text;
pub mod turn;
