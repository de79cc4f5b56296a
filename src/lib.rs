//! Cross-language interface generator core: builds an intermediate
//! representation of an API surface from plain source declarations and emits
//! the C-ABI wire layer for it.
pub mod capture;
pub mod generator;
pub mod ir;
pub mod parser;
pub mod templates;
pub mod text;
