//! The machine-code-facing layer of a compiler backend.
//!
//! Two pieces live here. The assembly model (`assembly`, `render`) is the
//! in-memory representation that instruction selection produces and that
//! register allocation and code emission consume: registers, operands,
//! instructions, labeled blocks, functions and a whole `Assembly`, together
//! with its rendering to Intel-syntax text. The rule model (`ast`) is the
//! declarative pattern/template language that drives instruction selection:
//! a `Rule` pairs a sequence of IR-operation patterns with a template of
//! target instructions.
//!
//! The matching engine that applies rules, the register allocator and the
//! final assembler are collaborators of this layer, not part of it.

pub mod assembly;
pub mod ast;
pub mod ident;
pub mod laws;
pub mod machine;
pub mod render;
pub mod text;
