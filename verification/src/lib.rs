//! A code generator for a small C-like language: it checks the program's
//! types and scopes and emits LLVM IR through `inkwell`.
pub mod ast;
pub mod scopes;
pub mod text;
pub mod args;
pub mod llvm;
pub mod typing;
pub mod ir;
pub mod codegen;
