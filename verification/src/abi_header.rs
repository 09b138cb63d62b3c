//! The header that a dynamic library exports, which a loader checks before it
//! uses the library.

use vstd::prelude::*;

use crate::text::{parse_u32, u32_from_text};

verus! {

/// The header of a dynamic library: a fixed magic string, then the major
/// and minor version of the ABI that the library was built against.
#[derive(Debug, Clone, Copy, PartialEq, Eq)]
pub struct AbiHeader {
    pub magic_string: [u8; 32],
    pub abi_major: u32,
    pub abi_minor: u32,
}

/// The ASCII bytes of `abi stable library for Rust` followed by five spaces.
pub open spec fn abi_magic() -> Seq<u8> {
    seq![
        97u8, 98, 105, 32, 115, 116, 97, 98, 108, 101, 32, 108, 105, 98, 114, 97,
        114, 121, 32, 102, 111, 114, 32, 82, 117, 115, 116, 32, 32, 32, 32, 32,
    ]
}

/// The magic string of every header.
pub fn abi_magic_string() -> (m: [u8; 32])
    ensures
        m@ == abi_magic(),
{
    let m: [u8; 32] = [
        97, 98, 105, 32, 115, 116, 97, 98, 108, 101, 32, 108, 105, 98, 114, 97,
        114, 121, 32, 102, 111, 114, 32, 82, 117, 115, 116, 32, 32, 32, 32, 32,
    ];
    assert(m@ =~= abi_magic());
    m
}

/// The header for the ABI version whose major and minor parts are written,
/// in base ten, as `major` and `minor`.
pub fn construct_abi_header(major: &str, minor: &str) -> (h: AbiHeader)
    requires
        u32_from_text(major@) is Some,
        u32_from_text(minor@) is Some,
    ensures
        h.magic_string@ == abi_magic(),
        Some(h.abi_major) == u32_from_text(major@),
        Some(h.abi_minor) == u32_from_text(minor@),
{
    let abi_major = match parse_u32(major) {
        Some(v) => v,
        None => 0,
    };
    let abi_minor = match parse_u32(minor) {
        Some(v) => v,
        None => 0,
    };
    AbiHeader { magic_string: abi_magic_string(), abi_major, abi_minor }
}

} // verus!
