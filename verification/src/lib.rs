//! A fuel-bounded runner for a single exported WebAssembly function, together
//! with a static opcode-frequency profile of the module's code.

pub mod decode;
pub mod engine;
pub mod label;
pub mod opcode;
pub mod outcome;
pub mod pipeline;
pub mod printer;
pub mod report;
pub mod scanner;
pub mod text;
