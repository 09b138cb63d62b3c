use abi_stable::abi_header::{abi_magic_string, construct_abi_header};

#[test]
fn header_fields() {
    let h = construct_abi_header("0", "7");
    assert_eq!(&h.magic_string, b"abi stable library for Rust     ");
    assert_eq!(h.abi_major, 0);
    assert_eq!(h.abi_minor, 7);
}

#[test]
fn header_versions_are_read_in_base_ten() {
    let h = construct_abi_header("12", "+305");
    assert_eq!(h.abi_major, 12);
    assert_eq!(h.abi_minor, 305);
}

#[test]
fn magic_string() {
    assert_eq!(&abi_magic_string(), b"abi stable library for Rust     ");
}
