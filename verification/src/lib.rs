//! A small construction layer for describing digital logic: named bit-vector
//! signals, expressions over them, assignment statements, and a module that
//! collects statements and renders them as text.

pub mod error;
pub mod expr;
pub mod module;
pub mod resource;
pub mod signal;
pub mod stmt;
pub mod text;

pub use crate::error::HdlError;
pub use crate::expr::Expr;
pub use crate::module::Module;
pub use crate::resource::Resource;
pub use crate::signal::{Signal, Where};
pub use crate::stmt::Stmt;
