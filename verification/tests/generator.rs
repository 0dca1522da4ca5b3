use ffi_destruct::destruct::{
    classify_field, destruct_type_ptr, field_destructors, impl_destruct_macro, is_c_char,
    select_strategy, TeardownStmt,
};
use ffi_destruct::entry::{generate_entry_point, EntryInstr};
use ffi_destruct::schema::{
    FieldSchema, FieldShape, FieldsSchema, ReleaseStrategy, SchemaError, StructSchema,
    TeardownAction,
};
use ffi_destruct::utils::get_attribute;

fn ptr_field(name: &str, pointee: &str, nullable: bool, no_release: bool) -> FieldSchema {
    FieldSchema {
        name: name.to_string(),
        shape: FieldShape::RawPointer {
            pointee: pointee.to_string(),
            pointee_is_pointer: false,
        },
        nullable,
        no_release,
    }
}

fn other_field(name: &str, nullable: bool, no_release: bool) -> FieldSchema {
    FieldSchema {
        name: name.to_string(),
        shape: FieldShape::Other,
        nullable,
        no_release,
    }
}

fn schema_of(name: &str, fields: Vec<FieldSchema>) -> StructSchema {
    StructSchema {
        name: name.to_string(),
        fields: FieldsSchema::Named(fields),
    }
}

#[test]
fn char_marker_spellings_match() {
    assert!(is_c_char("c_char"));
    assert!(is_c_char("std::ffi::c_char"));
    assert!(is_c_char("std::os::raw::c_char"));
    assert!(is_c_char("libc::c_char"));
    assert!(is_c_char(":: std :: ffi :: c_char"));
    assert!(!is_c_char("MyStruct"));
    assert!(!is_c_char("String"));
    assert!(!is_c_char("c_cha"));
    assert!(!is_c_char(""));
}

#[test]
fn char_marker_is_permissive_substring() {
    // Deliberately permissive: a name that merely embeds the marker matches.
    assert!(is_c_char("my_c_char_wrapper"));
    assert_eq!(
        select_strategy("CCharBox<c_char>"),
        ReleaseStrategy::StringRelease
    );
}

#[test]
fn strategy_selection() {
    assert_eq!(
        select_strategy("std::ffi::c_char"),
        ReleaseStrategy::StringRelease
    );
    assert_eq!(select_strategy("MyStruct"), ReleaseStrategy::GenericRelease);
    assert_eq!(select_strategy(""), ReleaseStrategy::GenericRelease);
}

#[test]
fn classify_untagged_pointer_releases() {
    let f = ptr_field("a", "std::ffi::c_char", false, false);
    assert_eq!(
        classify_field(&f),
        Ok(TeardownAction::Release(ReleaseStrategy::StringRelease))
    );
}

#[test]
fn classify_nullable_pointer_guards() {
    let f = ptr_field("a", "MyStruct", true, false);
    assert_eq!(
        classify_field(&f),
        Ok(TeardownAction::GuardedRelease(
            ReleaseStrategy::GenericRelease
        ))
    );
}

#[test]
fn classify_no_drop_suppresses_even_nullable() {
    let f = ptr_field("a", "std::ffi::c_char", false, true);
    assert_eq!(classify_field(&f), Ok(TeardownAction::Suppressed));
    let g = ptr_field("a", "std::ffi::c_char", true, true);
    assert_eq!(classify_field(&g), Ok(TeardownAction::Suppressed));
}

#[test]
fn classify_other_field_skips() {
    let f = other_field("n", false, false);
    assert_eq!(classify_field(&f), Ok(TeardownAction::Skip));
}

#[test]
fn classify_tagged_other_field_fails() {
    let f = other_field("n", true, false);
    assert_eq!(classify_field(&f), Err(SchemaError::AttributeOnNonPointer));
    let g = other_field("n", false, true);
    assert_eq!(classify_field(&g), Err(SchemaError::AttributeOnNonPointer));
}

#[test]
fn classify_nested_pointer_fails() {
    let f = FieldSchema {
        name: "p".to_string(),
        shape: FieldShape::RawPointer {
            pointee: "*mut c_char".to_string(),
            pointee_is_pointer: true,
        },
        nullable: false,
        no_release: false,
    };
    assert_eq!(classify_field(&f), Err(SchemaError::NestedRawPointer));
    // The nested-pointer check precedes attribute handling.
    let g = FieldSchema {
        no_release: true,
        ..f.clone()
    };
    assert_eq!(classify_field(&g), Err(SchemaError::NestedRawPointer));
}

#[test]
fn scenario_untagged_char_pointer_unconditional_string_release() {
    let schema = schema_of("S", vec![ptr_field("a", "std::ffi::c_char", false, false)]);
    let proc_ = impl_destruct_macro(&schema).unwrap();
    assert_eq!(proc_.ty_name, "S".to_string());
    assert_eq!(proc_.stmts.len(), 1);
    let stmt = &proc_.stmts[0];
    assert_eq!(stmt.field, "a".to_string());
    assert_eq!(stmt.strategy, ReleaseStrategy::StringRelease);
    assert!(!stmt.guarded);
}

#[test]
fn scenario_nullable_char_pointer_guarded_string_release() {
    let schema = schema_of("S", vec![ptr_field("a", "std::ffi::c_char", true, false)]);
    let proc_ = impl_destruct_macro(&schema).unwrap();
    assert_eq!(proc_.stmts.len(), 1);
    let stmt = &proc_.stmts[0];
    assert_eq!(stmt.field, "a".to_string());
    assert_eq!(stmt.strategy, ReleaseStrategy::StringRelease);
    assert!(stmt.guarded);
}

#[test]
fn scenario_no_drop_pointer_emits_nothing() {
    let schema = schema_of("S", vec![ptr_field("a", "OtherType", false, true)]);
    let proc_ = impl_destruct_macro(&schema).unwrap();
    assert!(proc_.stmts.is_empty());
}

#[test]
fn scenario_plain_field_emits_nothing_and_tagging_it_fails() {
    let schema = schema_of("S", vec![other_field("n", false, false)]);
    let proc_ = impl_destruct_macro(&schema).unwrap();
    assert!(proc_.stmts.is_empty());

    let tagged = schema_of("S", vec![other_field("n", true, false)]);
    assert_eq!(
        impl_destruct_macro(&tagged),
        Err(SchemaError::AttributeOnNonPointer)
    );
}

#[test]
fn scenario_entry_point_symbol_name() {
    let ep = generate_entry_point("MyStruct");
    assert_eq!(ep.fn_name, "destruct_my_struct".to_string());
}

#[test]
fn entry_point_names_are_snake_cased() {
    assert_eq!(
        generate_entry_point("TestA").fn_name,
        "destruct_test_a".to_string()
    );
    assert_eq!(
        generate_entry_point("Structure").fn_name,
        "destruct_structure".to_string()
    );
    assert_eq!(
        generate_entry_point("already_snake").fn_name,
        "destruct_already_snake".to_string()
    );
}

#[test]
fn entry_point_body_guards_before_release() {
    let ep = generate_entry_point("MyStruct");
    assert_eq!(
        ep.body,
        vec![EntryInstr::ReturnIfNull, EntryInstr::ReleaseInstance]
    );
}

#[test]
fn teardown_preserves_declaration_order() {
    let schema = schema_of(
        "Structure",
        vec![
            ptr_field("c_string", "c_char", false, false),
            ptr_field("c_string_nullable", "c_char", true, false),
            ptr_field("other", "MyStruct", false, false),
            ptr_field("other_nullable", "MyStruct", true, false),
            ptr_field("not_dropped", "AnyOther", false, true),
            ptr_field("any", "AnyOther", false, false),
            other_field("normal_int", false, false),
            other_field("normal_string", false, false),
        ],
    );
    let proc_ = impl_destruct_macro(&schema).unwrap();
    let got: Vec<(String, ReleaseStrategy, bool)> = proc_
        .stmts
        .iter()
        .map(|s: &TeardownStmt| (s.field.clone(), s.strategy, s.guarded))
        .collect();
    assert_eq!(
        got,
        vec![
            (
                "c_string".to_string(),
                ReleaseStrategy::StringRelease,
                false
            ),
            (
                "c_string_nullable".to_string(),
                ReleaseStrategy::StringRelease,
                true
            ),
            ("other".to_string(), ReleaseStrategy::GenericRelease, false),
            (
                "other_nullable".to_string(),
                ReleaseStrategy::GenericRelease,
                true
            ),
            ("any".to_string(), ReleaseStrategy::GenericRelease, false),
        ]
    );
}

#[test]
fn generation_aborts_on_first_error() {
    let schema = schema_of(
        "S",
        vec![
            ptr_field("ok", "c_char", false, false),
            other_field("bad", true, false),
            FieldSchema {
                name: "worse".to_string(),
                shape: FieldShape::RawPointer {
                    pointee: "*mut u8".to_string(),
                    pointee_is_pointer: true,
                },
                nullable: false,
                no_release: false,
            },
        ],
    );
    assert_eq!(
        impl_destruct_macro(&schema),
        Err(SchemaError::AttributeOnNonPointer)
    );
}

#[test]
fn malformed_shapes_are_rejected() {
    let positional = StructSchema {
        name: "Tuple".to_string(),
        fields: FieldsSchema::Positional,
    };
    assert_eq!(
        impl_destruct_macro(&positional),
        Err(SchemaError::PositionalFields)
    );

    let unit = StructSchema {
        name: "Unit".to_string(),
        fields: FieldsSchema::Unit,
    };
    assert_eq!(impl_destruct_macro(&unit), Err(SchemaError::EmptyFields));

    let empty = schema_of("Empty", vec![]);
    assert_eq!(impl_destruct_macro(&empty), Err(SchemaError::EmptyFields));
}

#[test]
fn field_destructors_stand_alone() {
    let fields = vec![
        ptr_field("a", "c_char", false, false),
        ptr_field("b", "Thing", true, false),
    ];
    let stmts = field_destructors(&fields).unwrap();
    assert_eq!(stmts.len(), 2);
    assert_eq!(stmts[0].field, "a".to_string());
    assert_eq!(stmts[0].pointee, "c_char".to_string());
    assert!(!stmts[0].guarded);
    assert_eq!(stmts[1].field, "b".to_string());
    assert_eq!(stmts[1].pointee, "Thing".to_string());
    assert!(stmts[1].guarded);
}

#[test]
fn destruct_type_ptr_builds_one_statement() {
    let f = ptr_field("s", "std::os::raw::c_char", false, false);
    let stmt = destruct_type_ptr(&f, true);
    assert_eq!(stmt.field, "s".to_string());
    assert_eq!(stmt.pointee, "std::os::raw::c_char".to_string());
    assert_eq!(stmt.strategy, ReleaseStrategy::StringRelease);
    assert!(stmt.guarded);
}

#[test]
fn get_attribute_finds_names() {
    let attrs = vec!["nullable".to_string(), "no_drop".to_string()];
    assert!(get_attribute(&attrs, "nullable"));
    assert!(get_attribute(&attrs, "no_drop"));
    assert!(!get_attribute(&attrs, "missing"));
    let none: Vec<String> = vec![];
    assert!(!get_attribute(&none, "nullable"));
}

#[test]
fn from_attrs_reads_the_two_hints() {
    let shape = FieldShape::RawPointer {
        pointee: "c_char".to_string(),
        pointee_is_pointer: false,
    };
    let f = FieldSchema::from_attrs(
        "a".to_string(),
        shape.clone(),
        &vec!["nullable".to_string()],
    )
    .unwrap();
    assert!(f.nullable);
    assert!(!f.no_release);

    let g = FieldSchema::from_attrs(
        "a".to_string(),
        shape.clone(),
        &vec!["no_drop".to_string(), "nullable".to_string()],
    )
    .unwrap();
    assert!(g.nullable);
    assert!(g.no_release);

    let h = FieldSchema::from_attrs("a".to_string(), shape.clone(), &vec![]).unwrap();
    assert!(!h.nullable);
    assert!(!h.no_release);

    assert_eq!(
        FieldSchema::from_attrs("a".to_string(), shape, &vec!["weird".to_string()]),
        Err(SchemaError::UnknownAttribute)
    );
}

#[test]
fn error_messages_are_descriptive() {
    assert_eq!(
        SchemaError::AttributeOnNonPointer.message(),
        "attribute valid only on raw-pointer fields"
    );
    assert_eq!(
        SchemaError::NestedRawPointer.message(),
        "nested raw pointers unsupported"
    );
}
