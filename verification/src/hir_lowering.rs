//! Passes that lower the typed HIR towards code generation.
pub mod async_splitter;
pub mod lower_async_if;
pub mod lower_if;
