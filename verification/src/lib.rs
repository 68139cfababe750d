use vstd::prelude::*;

pub mod ast;
pub mod builtin_func;
pub mod builtin_funcs;
pub mod chunk;
pub mod compiler;
pub mod env;
pub mod lazy_iter;
pub mod module_builder;
pub mod parser;
pub mod scanner;
pub mod structs;
pub mod syntax;
pub mod token;
pub mod vm;
pub mod wasm_model;
pub mod wasmizer;
pub mod wasmtypes;

verus! {
} // verus!
