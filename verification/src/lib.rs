//! archangel: the verified decision core of an AI-driven, security-first
//! Linux administration system.

pub mod audit;
pub mod bundle;
pub mod config;
pub mod ctl;
pub mod crypto;
pub mod egress;
pub mod execd;
pub mod hex;
pub mod ipc;
pub mod llm;
pub mod mode;
pub mod policy;
pub mod primitives;
pub mod sandbox;
pub mod snapshot;
pub mod text;
pub mod wire;
