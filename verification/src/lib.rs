//! A source-to-source translator: it consumes an abstract syntax tree of a
//! statically-typed imperative language (a restricted subset: functions, local
//! bindings, assignment, conditionals, loops over integer ranges, binary
//! expressions, and `match` lowered to `if/elseif/else`) and emits equivalent
//! Luau program text.
//!
//! The translation itself is specified by spec functions over the AST
//! ([`lowering`]) and the executable walker ([`transpiler`]) is proved to
//! produce exactly that text.

pub mod ast;
pub mod indent_manager;
pub mod laws;
pub mod lowering;
pub mod text;
pub mod transpiler;

pub use indent_manager::IndentManager;
pub use transpiler::LuauTranspiler;
