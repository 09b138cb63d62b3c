//! Type metadata, derive-input analysis and the small computations behind the
//! procedural macros of a library for ABI-stable Rust.

pub mod text;
pub mod type_info;
pub mod syntax;
pub mod datastructure;
pub mod literals;
pub mod abi_header;
