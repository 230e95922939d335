//! Static heuristics over a binary's structural view: entropy-driven and
//! byte-run findings, exact pattern search, structural comparison of two
//! analyses, and the explanation catalog for findings.
pub mod analyzer;
pub mod debugger;
pub mod diff;
pub mod disassembler;
pub mod entropy;
pub mod error;
pub mod explanations;
pub mod pattern;
pub mod report;
pub mod scanner;
pub mod scripting;
pub mod sort;
pub mod text;
