//! Incremental recompilation for a language server: the package under edit
//! is compiled again and again, its dependencies are reused, and a last good
//! snapshot of every compiled module, with a line and column index of its
//! source, serves editor features between compiles.
pub mod compiler;
pub mod line_numbers;
pub mod settings;
pub mod snapshot;
pub mod warnings;
