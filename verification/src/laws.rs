//! Properties that relate several operations of the library, proved over
//! the models that their contracts use.
pub mod async_splitter;
pub mod asyncness;
pub mod lower_async_if;
pub mod lower_if;
pub mod parser;
pub mod runtime_env;
pub mod typing;
pub mod type_check;
