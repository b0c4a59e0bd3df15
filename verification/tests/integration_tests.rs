use splat_derive::decl::{DeclData, Declaration, FieldsDecl, NamedField};
use splat_derive::pipeline::generate;

fn named_field(ident: &str, ty: &str) -> NamedField {
    NamedField {
        ident: ident.to_string(),
        ty: ty.to_string(),
    }
}

#[test]
fn struct_fields() {
    let decl = Declaration {
        name: "TestStruct".to_string(),
        data: DeclData::Record(FieldsDecl::Named(vec![
            named_field("field_one", "u16"),
            named_field("field_two", "u16"),
            named_field("field_three", "u16"),
        ])),
    };
    let fragment = generate(&decl).unwrap();
    let test_struct = fragment.instantiate(250u16);
    assert_eq!(test_struct[0], 250);
    assert_eq!(test_struct[1], 250);
    assert_eq!(test_struct[2], 250);
}

#[test]
fn tuple_struct_fields() {
    let decl = Declaration {
        name: "TestTupleStruct".to_string(),
        data: DeclData::Record(FieldsDecl::Positional(vec![
            "i32".to_string(),
            "i32".to_string(),
            "i32".to_string(),
        ])),
    };
    let fragment = generate(&decl).unwrap();
    let test_tuple_struct = fragment.instantiate(-1_000_000i32);
    assert_eq!(test_tuple_struct[0], -1_000_000);
    assert_eq!(test_tuple_struct[1], -1_000_000);
    assert_eq!(test_tuple_struct[2], -1_000_000);
}
