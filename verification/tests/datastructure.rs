use abi_stable::datastructure::{DataStructure, DataVariant, FieldIdent, FieldIndex, StructKind};
use abi_stable::syntax::{
    Data, DeriveInput, Field, Fields, GenericParam, Generics, Variant, Visibility,
};

fn field(name: Option<&str>, vis: Visibility, ty: &str) -> Field {
    Field {
        attrs: vec![],
        vis,
        ident: name.map(|s| s.to_string()),
        ty: ty.to_string(),
    }
}

fn input(vis: Visibility, data: Data, params: Vec<GenericParam>) -> DeriveInput {
    DeriveInput {
        attrs: vec!["#[repr(C)]".to_string()],
        vis,
        ident: "Thing".to_string(),
        generics: Generics { params },
        data,
    }
}

#[test]
fn braced_struct() {
    let ast = input(
        Visibility::Public,
        Data::Struct(Fields::Named(vec![
            field(Some("a"), Visibility::Public, "u8"),
            field(Some("b"), Visibility::Inherited, "u16"),
            field(Some("c"), Visibility::Restricted("crate".to_string()), "u32"),
        ])),
        vec![
            GenericParam::Lifetime("'a".to_string()),
            GenericParam::Type("T".to_string()),
            GenericParam::Lifetime("'b".to_string()),
        ],
    );
    let ds = DataStructure::new(&ast);
    assert_eq!(ds.data_variant, DataVariant::Struct);
    assert_eq!(ds.name, "Thing");
    assert_eq!(ds.lifetime_count, 2);
    assert_eq!(ds.field_count, 3);
    assert_eq!(ds.pub_field_count, 1);
    assert!(ds.has_public_fields());
    assert_eq!(ds.variants.len(), 1);
    let v = &ds.variants[0];
    assert_eq!(v.kind, StructKind::Braced);
    assert_eq!(v.name, "Thing");
    assert_eq!(v.attrs, &["#[repr(C)]".to_string()][..]);
    assert_eq!(v.discriminant, None);
    assert_eq!(v.pub_field_count, 1);
    assert_eq!(v.fields[1].index, FieldIndex { variant: 0, pos: 1 });
    assert_eq!(v.fields[1].ident(), "b");
    assert_eq!(v.fields[2].ty, "u32");
    assert!(v.fields[0].is_public());
    assert!(!v.fields[1].is_public());
    assert!(!v.fields[2].is_public());
}

#[test]
fn tuple_struct_fields_are_named_by_position() {
    let ast = input(
        Visibility::Inherited,
        Data::Struct(Fields::Unnamed(vec![
            field(None, Visibility::Inherited, "u8"),
            field(None, Visibility::Public, "u8"),
        ])),
        vec![],
    );
    let ds = DataStructure::new(&ast);
    let v = &ds.variants[0];
    assert_eq!(v.kind, StructKind::Tuple);
    assert_eq!(v.fields[0].ident, FieldIdent::Index(0, "field_0".to_string()));
    assert_eq!(v.fields[1].ident, FieldIdent::Index(1, "field_1".to_string()));
    assert_eq!(v.fields[1].ident(), "field_1");
    assert_eq!(ds.pub_field_count, 1);
    assert_eq!(ds.lifetime_count, 0);
}

#[test]
fn unit_struct_has_no_fields() {
    let ast = input(Visibility::Public, Data::Struct(Fields::Unit), vec![]);
    let ds = DataStructure::new(&ast);
    assert_eq!(ds.variants.len(), 1);
    assert_eq!(ds.variants[0].kind, StructKind::Braced);
    assert_eq!(ds.field_count, 0);
    assert!(!ds.has_public_fields());
}

#[test]
fn enum_fields_take_the_enum_visibility() {
    let variants = vec![
        Variant {
            attrs: vec!["#[sabi(x)]".to_string()],
            ident: "A".to_string(),
            fields: Fields::Unnamed(vec![field(None, Visibility::Inherited, "u8")]),
            discriminant: Some("3".to_string()),
        },
        Variant {
            attrs: vec![],
            ident: "B".to_string(),
            fields: Fields::Unit,
            discriminant: None,
        },
        Variant {
            attrs: vec![],
            ident: "C".to_string(),
            fields: Fields::Named(vec![
                field(Some("x"), Visibility::Inherited, "i32"),
                field(Some("y"), Visibility::Inherited, "i64"),
            ]),
            discriminant: None,
        },
    ];
    let ast = input(Visibility::Public, Data::Enum(variants.clone()), vec![]);
    let ds = DataStructure::new(&ast);
    assert_eq!(ds.data_variant, DataVariant::Enum);
    assert_eq!(ds.variants.len(), 3);
    assert_eq!(ds.field_count, 3);
    assert_eq!(ds.pub_field_count, 3);
    assert_eq!(ds.variants[0].name, "A");
    assert_eq!(ds.variants[0].kind, StructKind::Tuple);
    assert_eq!(ds.variants[0].discriminant.map(|s| s.as_str()), Some("3"));
    assert_eq!(ds.variants[0].attrs, &["#[sabi(x)]".to_string()][..]);
    assert_eq!(ds.variants[1].fields.len(), 0);
    assert_eq!(ds.variants[2].kind, StructKind::Braced);
    assert_eq!(ds.variants[2].fields[1].index, FieldIndex { variant: 2, pos: 1 });
    assert_eq!(*ds.variants[2].fields[1].vis, Visibility::Public);

    let private = input(Visibility::Inherited, Data::Enum(variants), vec![]);
    let ds = DataStructure::new(&private);
    assert_eq!(ds.field_count, 3);
    assert_eq!(ds.pub_field_count, 0);
    assert!(!ds.has_public_fields());
}

#[test]
fn union_is_one_braced_variant() {
    let ast = input(
        Visibility::Public,
        Data::Union(vec![
            field(Some("a"), Visibility::Public, "u32"),
            field(Some("b"), Visibility::Public, "f32"),
        ]),
        vec![GenericParam::Const("N".to_string())],
    );
    let ds = DataStructure::new(&ast);
    assert_eq!(ds.data_variant, DataVariant::Union);
    assert_eq!(ds.variants.len(), 1);
    assert_eq!(ds.variants[0].kind, StructKind::Braced);
    assert_eq!(ds.field_count, 2);
    assert_eq!(ds.pub_field_count, 2);
    assert_eq!(ds.lifetime_count, 0);
}

#[test]
fn index_idents() {
    assert_eq!(FieldIdent::new_index(0), FieldIdent::Index(0, "field_0".to_string()));
    assert_eq!(FieldIdent::new_index(12), FieldIdent::Index(12, "field_12".to_string()));
}

#[test]
fn lifetime_count_of_generics() {
    let g = Generics {
        params: vec![
            GenericParam::Type("T".to_string()),
            GenericParam::Lifetime("'a".to_string()),
            GenericParam::Const("N".to_string()),
        ],
    };
    assert_eq!(g.lifetime_count(), 1);
}

#[test]
fn parsed_shape_is_valid() {
    let ok = input(
        Visibility::Public,
        Data::Struct(Fields::Unnamed(vec![field(None, Visibility::Public, "u8")])),
        vec![],
    );
    assert!(ok.is_valid());
    assert!(Fields::Unit.is_valid());
    assert!(Fields::Named(vec![field(Some("a"), Visibility::Public, "u8")]).is_valid());
}

#[test]
fn misshapen_definitions_are_not_valid() {
    assert!(!Fields::Named(vec![field(None, Visibility::Public, "u8")]).is_valid());
    assert!(!Fields::Unnamed(vec![field(Some("a"), Visibility::Public, "u8")]).is_valid());
    let union = input(
        Visibility::Public,
        Data::Union(vec![field(None, Visibility::Public, "u8")]),
        vec![],
    );
    assert!(!union.is_valid());
    let en = input(
        Visibility::Public,
        Data::Enum(vec![Variant {
            attrs: vec![],
            ident: "A".to_string(),
            fields: Fields::Named(vec![field(None, Visibility::Inherited, "u8")]),
            discriminant: None,
        }]),
        vec![],
    );
    assert!(!en.is_valid());
}

#[test]
fn braced_fields_keep_their_names() {
    let ast = input(
        Visibility::Public,
        Data::Struct(Fields::Named(vec![field(Some("x"), Visibility::Public, "u8")])),
        vec![],
    );
    let ds = DataStructure::new(&ast);
    match &ds.variants[0].fields[0].ident {
        FieldIdent::Named(n) => assert_eq!(n.as_str(), "x"),
        other => panic!("{:?}", other),
    }
}
