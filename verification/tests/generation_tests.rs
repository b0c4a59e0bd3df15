use splat_derive::classify::{classify, Shape};
use splat_derive::decl::{DeclData, Declaration, FieldsDecl, NamedField, SplatError};
use splat_derive::homogeneity::{field_types, get_shared_type};
use splat_derive::pipeline::{derive_splat, generate};

fn field(ident: &str, ty: &str) -> NamedField {
    NamedField {
        ident: ident.to_string(),
        ty: ty.to_string(),
    }
}

fn point_decl() -> Declaration {
    Declaration {
        name: "Point".to_string(),
        data: DeclData::Record(FieldsDecl::Named(vec![
            field("x", "i32"),
            field("y", "i32"),
            field("z", "i32"),
        ])),
    }
}

#[test]
fn named_record_splat_sets_every_field() {
    let fragment = generate(&point_decl()).unwrap();
    let instance = fragment.instantiate(7i32);
    assert_eq!(instance, vec![7, 7, 7]);
}

#[test]
fn named_record_generated_text() {
    let text = derive_splat(&point_decl()).unwrap();
    assert_eq!(
        text,
        "impl Point { fn splat(v: i32) -> Self { \
         Self { x: v.clone(), y: v.clone(), z: v.clone() } } }"
    );
}

#[test]
fn positional_record_splat_sets_every_component() {
    let decl = Declaration {
        name: "Pair".to_string(),
        data: DeclData::Record(FieldsDecl::Positional(vec![
            "f64".to_string(),
            "f64".to_string(),
        ])),
    };
    let fragment = generate(&decl).unwrap();
    let instance = fragment.instantiate(2.5f64);
    assert_eq!(instance, vec![2.5, 2.5]);
    let text = fragment.render();
    assert_eq!(
        text,
        "impl Pair { fn splat(v: f64) -> Self { Self(v.clone(), v.clone()) } }"
    );
}

#[test]
fn heterogeneous_record_cites_divergent_field() {
    let decl = Declaration {
        name: "Mixed".to_string(),
        data: DeclData::Record(FieldsDecl::Named(vec![
            field("a", "i32"),
            field("b", "String"),
        ])),
    };
    let err = generate(&decl).unwrap_err();
    assert_eq!(err, SplatError::HeterogeneousType { index: 1 });
    assert_eq!(
        err.message(),
        "Splat can only be derived by structs where each field is the same type"
    );
}

#[test]
fn record_with_zero_fields_is_rejected() {
    let empty = Declaration {
        name: "Empty".to_string(),
        data: DeclData::Record(FieldsDecl::Named(vec![])),
    };
    let err = generate(&empty).unwrap_err();
    assert_eq!(err, SplatError::UnitShape);
    assert_eq!(
        err.message(),
        "Splat cannot be derived by structs with no fields"
    );
}

#[test]
fn unit_record_is_rejected() {
    let unit = Declaration {
        name: "Marker".to_string(),
        data: DeclData::Record(FieldsDecl::Unit),
    };
    assert_eq!(generate(&unit).unwrap_err(), SplatError::UnitShape);
}

#[test]
fn enumeration_is_rejected_with_shape_error() {
    let decl = Declaration {
        name: "Direction".to_string(),
        data: DeclData::Enumeration,
    };
    let err = derive_splat(&decl).unwrap_err();
    assert_eq!(err, SplatError::Shape);
    assert_eq!(err.message(), "Splat can only be derived by structs");
}

#[test]
fn classification_is_idempotent() {
    let decls = vec![
        point_decl(),
        Declaration {
            name: "Pair".to_string(),
            data: DeclData::Record(FieldsDecl::Positional(vec!["u8".to_string()])),
        },
        Declaration {
            name: "Marker".to_string(),
            data: DeclData::Record(FieldsDecl::Unit),
        },
        Declaration {
            name: "Direction".to_string(),
            data: DeclData::Enumeration,
        },
    ];
    for decl in &decls {
        assert_eq!(classify(decl), classify(decl));
    }
    assert_eq!(classify(&point_decl()), Ok(Shape::Named));
}

#[test]
fn generated_assignments_keep_declaration_order() {
    let decl = Declaration {
        name: "Rgb".to_string(),
        data: DeclData::Record(FieldsDecl::Named(vec![
            field("red", "u8"),
            field("green", "u8"),
            field("blue", "u8"),
        ])),
    };
    let text = derive_splat(&decl).unwrap();
    let red = text.find("red: v.clone()").unwrap();
    let green = text.find("green: v.clone()").unwrap();
    let blue = text.find("blue: v.clone()").unwrap();
    assert!(red < green && green < blue);
}

#[test]
fn shared_type_of_homogeneous_fields() {
    let types = vec!["u64".to_string(), "u64".to_string(), "u64".to_string()];
    assert_eq!(get_shared_type(&types).unwrap(), "u64".to_string());
}

#[test]
fn shared_type_reports_first_mismatch() {
    let types = vec![
        "u64".to_string(),
        "u64".to_string(),
        "i64".to_string(),
        "bool".to_string(),
    ];
    assert_eq!(
        get_shared_type(&types).unwrap_err(),
        SplatError::HeterogeneousType { index: 2 }
    );
}

#[test]
fn shared_type_of_empty_sequence_is_rejected() {
    let types: Vec<String> = vec![];
    assert_eq!(get_shared_type(&types).unwrap_err(), SplatError::UnitShape);
}

#[test]
fn field_types_follow_declaration_order() {
    let fields = FieldsDecl::Named(vec![field("a", "u8"), field("b", "u16")]);
    assert_eq!(
        field_types(&fields),
        vec!["u8".to_string(), "u16".to_string()]
    );
    let unit = FieldsDecl::Unit;
    assert_eq!(field_types(&unit), Vec::<String>::new());
}

#[test]
fn single_field_record_is_accepted() {
    let decl = Declaration {
        name: "Wrapper".to_string(),
        data: DeclData::Record(FieldsDecl::Named(vec![field("inner", "Vec<u8>")])),
    };
    let text = derive_splat(&decl).unwrap();
    assert_eq!(
        text,
        "impl Wrapper { fn splat(v: Vec<u8>) -> Self { Self { inner: v.clone() } } }"
    );
}

#[test]
fn type_equality_is_structural_not_resolved() {
    let decl = Declaration {
        name: "Aliased".to_string(),
        data: DeclData::Record(FieldsDecl::Positional(vec![
            "u8".to_string(),
            "core::primitive::u8".to_string(),
        ])),
    };
    assert_eq!(
        generate(&decl).unwrap_err(),
        SplatError::HeterogeneousType { index: 1 }
    );
}
