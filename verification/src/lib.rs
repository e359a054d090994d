//! Wire format, FFI binding model and Swift code generation.

pub mod wire;
pub mod ir;
pub mod binding;
pub mod naming;
pub mod text;
pub mod model;
pub mod swift;
pub mod callback_trait;
pub mod swift_plan;
pub mod templates;
