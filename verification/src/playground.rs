//! The requests and responses of the playground server.
use vstd::prelude::*;

verus! {

/// A source language that the playground compiles to WebAssembly.
#[derive(Debug, Clone, Copy, PartialEq, Eq, Structural, Hash)]
pub enum Language {
    Rust,
    Zig,
}

/// The answer to a compilation request: the WebAssembly text, and the
/// SPIR-V assembly or the reason there is none.
#[derive(Debug)]
pub struct CompileResponse {
    pub wat: String,
    pub spv: Result<String, String>,
}

impl CompileResponse {
    pub fn new(wat: String, spv: Result<String, String>) -> (r: Self)
        ensures
            r.wat == wat,
            r.spv == spv,
    {
        CompileResponse { wat, spv }
    }
}

/// The compiler of Rust sources.
#[derive(Debug, Clone, Copy, PartialEq, Eq, Structural)]
pub struct RustCompiler;

/// The compiler of Zig sources.
#[derive(Debug, Clone, Copy, PartialEq, Eq, Structural)]
pub struct ZigCompiler;

/// Information read from a WebAssembly module.
#[derive(Debug, Clone, Copy, PartialEq, Eq, Structural)]
pub struct WasmInfo;

} // verus!
