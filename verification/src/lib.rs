pub mod ast;
pub mod chiika_env;
pub mod driver;
pub mod error;
pub mod hir;
pub mod strings;
pub mod sync_functions;
pub mod hir_lowering;
pub mod hir_verifier;
pub mod parser;
pub mod prelude;
pub mod laws;
