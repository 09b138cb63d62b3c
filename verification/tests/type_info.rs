use abi_stable::type_info::{
    Constructor, MaybeCmp, ReturnValueEquality, StaticStr, TypeInfo, UTypeId, VersionStrings,
};

fn info(uid: MaybeCmp<UTypeId>, size: usize, alignment: usize) -> TypeInfo {
    TypeInfo {
        size,
        alignment,
        _uid: ReturnValueEquality { returned: uid },
        name: Constructor(StaticStr::new("Foo")),
        module: StaticStr::new("my_crate::shapes"),
        package: StaticStr::new("my_crate"),
        package_version: VersionStrings {
            major: StaticStr::new("1"),
            minor: StaticStr::new("2"),
            patch: StaticStr::new("3"),
        },
        _private_field: (),
    }
}

#[test]
fn same_type_id_is_compatible() {
    let a = info(MaybeCmp::Just(UTypeId { bits: 77 }), 8, 8);
    let b = info(MaybeCmp::Just(UTypeId { bits: 77 }), 16, 4);
    assert!(a.is_compatible(&b));
    assert!(b.is_compatible(&a));
}

#[test]
fn different_type_ids_are_not_compatible() {
    let a = info(MaybeCmp::Just(UTypeId { bits: 1 }), 8, 8);
    let b = info(MaybeCmp::Just(UTypeId { bits: 2 }), 8, 8);
    assert!(!a.is_compatible(&b));
    assert!(!b.is_compatible(&a));
}

#[test]
fn missing_type_id_is_compatible_with_nothing() {
    let a = info(MaybeCmp::Nothing, 8, 8);
    let b = info(MaybeCmp::Just(UTypeId { bits: 2 }), 8, 8);
    assert!(!a.is_compatible(&b));
    assert!(!b.is_compatible(&a));
    assert!(!a.is_compatible(&a));
    let c = info(MaybeCmp::Nothing, 8, 8);
    assert!(!a.is_compatible(&c));
}

#[test]
fn compatible_with_itself_when_identified() {
    let a = info(MaybeCmp::Just(UTypeId { bits: u128::MAX }), 0, 1);
    assert!(a.is_compatible(&a));
}

#[test]
fn compatibility_is_transitive_on_examples() {
    let a = info(MaybeCmp::Just(UTypeId { bits: 5 }), 1, 1);
    let b = info(MaybeCmp::Just(UTypeId { bits: 5 }), 2, 2);
    let c = info(MaybeCmp::Just(UTypeId { bits: 5 }), 3, 4);
    assert!(a.is_compatible(&b) && b.is_compatible(&c) && a.is_compatible(&c));
}

#[test]
fn maybe_cmp_equality() {
    assert!(MaybeCmp::Just(UTypeId { bits: 10 }) == MaybeCmp::Just(UTypeId { bits: 10 }));
    assert!(MaybeCmp::Just(UTypeId { bits: 0 }) != MaybeCmp::Just(UTypeId { bits: 10 }));
    assert!(MaybeCmp::Just(UTypeId { bits: 0 }) != MaybeCmp::Nothing);
    assert!(MaybeCmp::<UTypeId>::Nothing != MaybeCmp::Nothing);
}

#[test]
fn type_info_text() {
    let a = info(MaybeCmp::Just(UTypeId { bits: 3 }), 24, 8);
    assert_eq!(
        a.to_string(),
        "type:Foo\nsize:24 alignment:8\nmodule:'my_crate::shapes'\npackage:'my_crate'\npackage_version:1.2.3\n\n"
    );
}

#[test]
fn type_info_text_of_zero_sized_type() {
    let a = info(MaybeCmp::Nothing, 0, 1);
    assert_eq!(
        a.to_string(),
        "type:Foo\nsize:0 alignment:1\nmodule:'my_crate::shapes'\npackage:'my_crate'\npackage_version:1.2.3\n\n"
    );
}

#[test]
fn version_strings_text() {
    let v = VersionStrings {
        major: StaticStr::new("0"),
        minor: StaticStr::new("7"),
        patch: StaticStr::new("4"),
    };
    assert_eq!(v.to_string(), "0.7.4");
}

#[test]
fn static_str_gives_back_its_value() {
    let s = StaticStr::new("abc");
    assert_eq!(s.as_str(), "abc");
}
