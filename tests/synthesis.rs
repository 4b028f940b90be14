use attributes_utils::{
    generate_impl_block, AggregateDecl, FieldDecl, InterfaceMarker, MappingStrategy, SynthesisError, TypeExpr,
    Visibility,
};

fn path(segments: &[&str], args: Vec<TypeExpr>) -> TypeExpr {
    TypeExpr::Path {
        qself: None,
        leading_colon: false,
        segments: segments.iter().map(|s| s.to_string()).collect(),
        args,
    }
}

fn bare(ident: &str) -> TypeExpr {
    path(&[ident], vec![])
}

fn field(name: &str, visibility: Visibility, ty: TypeExpr) -> FieldDecl {
    FieldDecl { name: Some(name.to_string()), visibility, ty }
}

fn person() -> AggregateDecl {
    AggregateDecl {
        name: "Person".to_string(),
        visibility: Visibility::Public,
        fields: vec![
            field("name", Visibility::Public, bare("String")),
            field("nickname", Visibility::Public, path(&["Option"], vec![bare("String")])),
        ],
    }
}

#[test]
fn person_accessors() {
    let out = generate_impl_block(&person(), MappingStrategy::Full).unwrap();
    let optional_text = path(&["Option"], vec![TypeExpr::BorrowedText]);
    assert_eq!(out.aggregate, "Person");
    assert_eq!(out.constructor.visibility, Visibility::Public);
    assert_eq!(out.constructor.params.len(), 2);
    assert_eq!(out.constructor.params[0].name, "name");
    assert_eq!(out.constructor.params[0].ty, TypeExpr::BorrowedText);
    assert_eq!(out.constructor.params[1].name, "nickname");
    assert_eq!(out.constructor.params[1].ty, optional_text);
    assert_eq!(out.accessors.len(), 2);
    let a = &out.accessors[0];
    assert_eq!(a.setter.name, "set_name");
    assert_eq!(a.setter.field, "name");
    assert_eq!(a.setter.param_type, TypeExpr::BorrowedText);
    assert_eq!(a.getter.name, "get_name");
    assert_eq!(a.getter.field, "name");
    assert_eq!(a.getter.return_type, TypeExpr::BorrowedText);
    let b = &out.accessors[1];
    assert_eq!(b.setter.name, "set_nickname");
    assert_eq!(b.setter.param_type, optional_text);
    assert_eq!(b.getter.name, "get_nickname");
    assert_eq!(b.getter.return_type, optional_text);
    assert_eq!(b.getter.visibility, Visibility::Public);
    assert_eq!(out.constructor.marker, InterfaceMarker::Constructor);
    assert_eq!(a.setter.marker, InterfaceMarker::Accessor);
    assert_eq!(a.getter.marker, InterfaceMarker::Accessor);
    assert_eq!(b.setter.marker, InterfaceMarker::Accessor);
}

#[test]
fn anonymous_field_is_rejected() {
    let decl = AggregateDecl {
        name: "Pair".to_string(),
        visibility: Visibility::Public,
        fields: vec![
            field("left", Visibility::Public, bare("u8")),
            FieldDecl { name: None, visibility: Visibility::Public, ty: bare("u8") },
        ],
    };
    let r = generate_impl_block(&decl, MappingStrategy::Full);
    assert_eq!(r.unwrap_err(), SynthesisError::UnsupportedFieldShape { position: 1 });
}

#[test]
fn one_constructor_and_two_accessors_per_field_in_order() {
    let names = ["a", "b", "c", "d"];
    let decl = AggregateDecl {
        name: "Four".to_string(),
        visibility: Visibility::Crate,
        fields: names.iter().map(|n| field(n, Visibility::Private, bare("u32"))).collect(),
    };
    let out = generate_impl_block(&decl, MappingStrategy::Full).unwrap();
    assert_eq!(out.constructor.visibility, Visibility::Crate);
    assert_eq!(out.constructor.params.len(), 4);
    assert_eq!(out.accessors.len(), 4);
    for (i, n) in names.iter().enumerate() {
        assert_eq!(out.constructor.params[i].name, *n);
        assert_eq!(out.accessors[i].setter.name, format!("set_{}", n));
        assert_eq!(out.accessors[i].getter.name, format!("get_{}", n));
        assert_eq!(out.accessors[i].setter.visibility, Visibility::Private);
        assert_eq!(out.accessors[i].getter.return_type, bare("u32"));
    }
}

#[test]
fn empty_aggregate_has_only_a_constructor() {
    let decl = AggregateDecl {
        name: "Unit".to_string(),
        visibility: Visibility::Private,
        fields: vec![],
    };
    let out = generate_impl_block(&decl, MappingStrategy::Full).unwrap();
    assert_eq!(out.aggregate, "Unit");
    assert!(out.constructor.params.is_empty());
    assert!(out.accessors.is_empty());
}

#[test]
fn field_visibility_is_kept_per_accessor() {
    let decl = AggregateDecl {
        name: "Mixed".to_string(),
        visibility: Visibility::Public,
        fields: vec![
            field("open", Visibility::Public, bare("u8")),
            field("hidden", Visibility::Private, bare("u8")),
        ],
    };
    let out = generate_impl_block(&decl, MappingStrategy::Full).unwrap();
    assert_eq!(out.accessors[0].setter.visibility, Visibility::Public);
    assert_eq!(out.accessors[1].setter.visibility, Visibility::Private);
    assert_eq!(out.accessors[1].getter.visibility, Visibility::Private);
}

#[test]
fn duplicate_field_names_collide() {
    let decl = AggregateDecl {
        name: "Twice".to_string(),
        visibility: Visibility::Public,
        fields: vec![
            field("x", Visibility::Public, bare("u8")),
            field("y", Visibility::Public, bare("u8")),
            field("x", Visibility::Public, bare("u16")),
        ],
    };
    let r = generate_impl_block(&decl, MappingStrategy::Full);
    assert_eq!(
        r.unwrap_err(),
        SynthesisError::NameCollision { name: "x".to_string(), first: 0, second: 2 }
    );
}

#[test]
fn unmappable_field_type_fails_under_full_mapping() {
    let decl = AggregateDecl {
        name: "Refs".to_string(),
        visibility: Visibility::Public,
        fields: vec![
            field("ok", Visibility::Public, bare("u8")),
            field("tuple", Visibility::Public, TypeExpr::Other("(u8, u8)".to_string())),
        ],
    };
    let r = generate_impl_block(&decl, MappingStrategy::Full);
    assert_eq!(
        r.unwrap_err(),
        SynthesisError::UnmappableType { position: 1, field: "tuple".to_string() }
    );
    let out = generate_impl_block(&decl, MappingStrategy::Shallow).unwrap();
    assert_eq!(out.accessors[1].setter.param_type, TypeExpr::Other("(u8, u8)".to_string()));
}

#[test]
fn sequence_field_gets_slice_accessors() {
    let decl = AggregateDecl {
        name: "Tags".to_string(),
        visibility: Visibility::Public,
        fields: vec![field("tags", Visibility::Public, path(&["Vec"], vec![bare("String")]))],
    };
    let slice = TypeExpr::BorrowedSlice(Box::new(TypeExpr::BorrowedText));
    let full = generate_impl_block(&decl, MappingStrategy::Full).unwrap();
    assert_eq!(full.accessors[0].setter.param_type, slice);
    assert_eq!(full.accessors[0].getter.return_type, slice);
    let shallow = generate_impl_block(&decl, MappingStrategy::Shallow).unwrap();
    assert_eq!(shallow.accessors[0].getter.return_type, path(&["Vec"], vec![bare("String")]));
}

#[test]
fn qualified_generic_field_gets_last_identifier() {
    let decl = AggregateDecl {
        name: "Index".to_string(),
        visibility: Visibility::Public,
        fields: vec![field(
            "map",
            Visibility::Crate,
            path(&["std", "collections", "BTreeMap"], vec![bare("String"), bare("u64")]),
        )],
    };
    let out = generate_impl_block(&decl, MappingStrategy::Full).unwrap();
    assert_eq!(out.accessors[0].setter.param_type, bare("BTreeMap"));
    assert_eq!(out.constructor.params[0].ty, bare("BTreeMap"));
}

#[test]
fn first_collision_is_reported() {
    let decl = AggregateDecl {
        name: "Many".to_string(),
        visibility: Visibility::Public,
        fields: vec![
            field("a", Visibility::Public, bare("u8")),
            field("b", Visibility::Public, bare("u8")),
            field("c", Visibility::Public, bare("u8")),
            field("b", Visibility::Public, bare("u8")),
            field("a", Visibility::Public, bare("u8")),
        ],
    };
    let r = generate_impl_block(&decl, MappingStrategy::Full);
    assert_eq!(
        r.unwrap_err(),
        SynthesisError::NameCollision { name: "b".to_string(), first: 1, second: 3 }
    );
}

#[test]
fn first_unmappable_field_is_reported() {
    let decl = AggregateDecl {
        name: "Refs".to_string(),
        visibility: Visibility::Public,
        fields: vec![
            field("a", Visibility::Public, bare("u8")),
            field("b", Visibility::Public, TypeExpr::Other("&'a u8".to_string())),
            field("c", Visibility::Public, TypeExpr::Other("[u8; 4]".to_string())),
        ],
    };
    let r = generate_impl_block(&decl, MappingStrategy::Full);
    assert_eq!(
        r.unwrap_err(),
        SynthesisError::UnmappableType { position: 1, field: "b".to_string() }
    );
}

#[test]
fn qualified_self_and_lifetime_fields_synthesize() {
    let decl = AggregateDecl {
        name: "Assoc".to_string(),
        visibility: Visibility::Public,
        fields: vec![
            field(
                "item",
                Visibility::Public,
                TypeExpr::Path {
                    qself: Some("<T as Tr>".to_string()),
                    leading_colon: false,
                    segments: vec!["Item".to_string()],
                    args: vec![],
                },
            ),
            field("cow", Visibility::Public, path(&["Option"], vec![TypeExpr::NonType("'a".to_string())])),
        ],
    };
    let out = generate_impl_block(&decl, MappingStrategy::Full).unwrap();
    assert_eq!(out.accessors[0].getter.return_type, bare("Item"));
    assert_eq!(out.accessors[1].setter.param_type, bare("Option"));
}
