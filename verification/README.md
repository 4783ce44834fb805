# wasm2spirv

The core of a WebAssembly to SPIR-V compiler, written in Verus: every
function under `src/` carries a contract that Verus proves.

- `src/values/`: the value graph (integers, booleans, floats, pointers,
  vectors) with constant folding; `eval.rs` proves that folding agrees with
  evaluation.
- `src/block.rs`, `src/control.rs`, `src/memory.rs`, `src/variables.rs`:
  the operand stack and the translation of instructions, blocks, loops,
  branches, loads and stores, locals and globals onto the value graph.
- `src/function_builder.rs`: a function's parameters, locals, entry point
  and body.
- `src/config.rs`, `src/function.rs`, `src/binary/`: the configuration and
  its binary encoding, with the proof that decoding an encoding gives the
  value back.
- `src/capabilities.rs`, `src/module.rs`, `src/version.rs`, `src/spv.rs`:
  SPIR-V capabilities, addressing models, versions, and the module's
  global variables.
- `src/import.rs`, `src/wasm.rs`: the built-ins imported from
  `spir_global`, and the building of a module from the sections of a
  WebAssembly module (its imports, functions, globals and bodies).
- `src/rate_limit.rs`, `src/bindings.rs`, `src/playground.rs`: the decisions
  of the rate limiter and of the C bindings.

`app/` holds what stays outside the verified library: configurations in
JSON, streams, float constant folding, and a blocking rate limiter.
