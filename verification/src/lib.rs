//! Verified core of a WebAssembly to SPIR-V compiler: target versions, types,
//! configuration and its binary encoding, the value graph with constant
//! folding, the translation of function bodies (blocks, loops, branches,
//! calls, loads and stores) onto it, and the small decision procedures
//! around them.
#![allow(unused_imports)]
#![allow(non_camel_case_types)]

pub mod error;
pub mod version;
pub mod spv;
pub mod types;
pub mod str;
pub mod vecmap;
pub mod function;
pub mod config;
pub mod binary;
pub mod extended_is;
pub mod decorator;
pub mod module;
pub mod values;
pub mod block;
pub mod capabilities;
pub mod rate_limit;
pub mod bindings;
pub mod playground;
pub mod function_builder;
pub mod control;
pub mod memory;
pub mod variables;
pub mod import;
pub mod wasm;
pub mod laws;
