pub mod repl;
pub mod standalone;
