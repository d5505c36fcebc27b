use gtk_widget_macro::model::{
    Binding, FieldDef, Shape, SynthError, TypeAnnotation, TypeDefinition,
};
use gtk_widget_macro::synth::{expand, extract_descriptors, named_fields};

fn path(segments: &[&str]) -> TypeAnnotation {
    TypeAnnotation::Path { segments: segments.iter().map(|s| s.to_string()).collect() }
}

fn field(name: &str, ty: TypeAnnotation) -> FieldDef {
    FieldDef { name: name.to_string(), ty }
}

fn window_def() -> TypeDefinition {
    TypeDefinition {
        ident: "Window".to_string(),
        shape: Shape::Named {
            fields: vec![field("title", path(&["Label"])), field("button", path(&["Button"]))],
        },
    }
}

#[test]
fn factory_one_lookup_per_field_in_order() {
    let unit = expand(&window_def()).unwrap().unwrap();
    assert_eq!(unit.type_ident, "Window");
    assert_eq!(unit.factory.bindings.len(), 2);
    assert_eq!(unit.factory.bindings[0].key, "title");
    assert_eq!(unit.factory.bindings[0].field, "title");
    assert_eq!(unit.factory.bindings[0].type_head, "Label");
    assert_eq!(unit.factory.bindings[1].key, "button");
    assert_eq!(unit.factory.bindings[1].field, "button");
    assert_eq!(unit.factory.bindings[1].type_head, "Button");
    assert_eq!(unit.factory.initializer, vec!["title".to_string(), "button".to_string()]);
}

#[test]
fn factory_abort_messages_name_the_field() {
    let unit = expand(&window_def()).unwrap().unwrap();
    assert_eq!(unit.factory.bindings[0].error_message, "Couldn't get title");
    assert_eq!(unit.factory.bindings[1].error_message, "Couldn't get button");
}

#[test]
fn one_accessor_per_field() {
    let unit = expand(&window_def()).unwrap().unwrap();
    assert_eq!(unit.accessors.len(), 2);
    assert_eq!(unit.accessors[0].name, "title");
    assert_eq!(unit.accessors[0].field, "title");
    assert_eq!(unit.accessors[0].type_head, "Label");
    assert_eq!(unit.accessors[1].name, "button");
    assert_eq!(unit.accessors[1].field, "button");
    assert_eq!(unit.accessors[1].type_head, "Button");
}

#[test]
fn qualified_path_uses_head_segment() {
    let def = TypeDefinition {
        ident: "Pane".to_string(),
        shape: Shape::Named { fields: vec![field("list", path(&["gtk", "ListBox"]))] },
    };
    let unit = expand(&def).unwrap().unwrap();
    assert_eq!(unit.factory.bindings[0].type_head, "gtk");
}

#[test]
fn zero_field_record_yields_empty_factory() {
    let def = TypeDefinition {
        ident: "Empty".to_string(),
        shape: Shape::Named { fields: vec![] },
    };
    let unit = expand(&def).unwrap().unwrap();
    assert_eq!(unit.factory.bindings.len(), 0);
    assert_eq!(unit.factory.initializer.len(), 0);
    assert_eq!(unit.accessors.len(), 0);
}

#[test]
fn non_named_shapes_are_a_silent_no_op() {
    let unit_like = TypeDefinition { ident: "U".to_string(), shape: Shape::Unit };
    assert!(matches!(expand(&unit_like), Ok(None)));
    let tuple_like = TypeDefinition {
        ident: "T".to_string(),
        shape: Shape::Tuple { types: vec![path(&["Label"])] },
    };
    assert!(matches!(expand(&tuple_like), Ok(None)));
    let enum_like = TypeDefinition { ident: "E".to_string(), shape: Shape::Enumeration };
    assert!(matches!(expand(&enum_like), Ok(None)));
    let union_like = TypeDefinition { ident: "W".to_string(), shape: Shape::Union };
    assert!(matches!(expand(&union_like), Ok(None)));
}

#[test]
fn named_fields_distinguishes_shapes() {
    assert!(named_fields(&window_def()).is_some());
    let unit_like = TypeDefinition { ident: "U".to_string(), shape: Shape::Unit };
    assert!(named_fields(&unit_like).is_none());
}

#[test]
fn unsupported_annotation_is_fatal_and_names_the_field() {
    let def = TypeDefinition {
        ident: "Window".to_string(),
        shape: Shape::Named {
            fields: vec![
                field("title", path(&["Label"])),
                field("size", TypeAnnotation::Unsupported),
            ],
        },
    };
    let err = expand(&def).unwrap_err();
    let SynthError::UnsupportedFieldType { field } = &err;
    assert_eq!(field, "size");
    let diagnostic = err.describe();
    assert!(diagnostic.contains("size"));
    assert_eq!(diagnostic, "unsupported type annotation on field size");
}

#[test]
fn first_offending_field_is_reported() {
    let fields = vec![
        field("a", path(&["Label"])),
        field("b", TypeAnnotation::Unsupported),
        field("c", TypeAnnotation::Unsupported),
    ];
    let err = extract_descriptors(&fields).unwrap_err();
    let SynthError::UnsupportedFieldType { field } = &err;
    assert_eq!(field, "b");
}

#[test]
fn empty_path_annotation_is_rejected() {
    let fields = vec![field("x", path(&[]))];
    let err = extract_descriptors(&fields).unwrap_err();
    let SynthError::UnsupportedFieldType { field } = &err;
    assert_eq!(field, "x");
}

#[test]
fn descriptors_keep_declaration_order() {
    let fields = vec![
        field("a", path(&["Label"])),
        field("b", path(&["Button"])),
        field("c", path(&["Entry"])),
    ];
    let descs = extract_descriptors(&fields).unwrap();
    let names: Vec<&str> = descs.iter().map(|d| d.name.as_str()).collect();
    assert_eq!(names, vec!["a", "b", "c"]);
    let heads: Vec<&str> = descs.iter().map(|d| d.type_head.as_str()).collect();
    assert_eq!(heads, vec!["Label", "Button", "Entry"]);
}

#[test]
fn binding_fields_are_consistent() {
    let unit = expand(&window_def()).unwrap().unwrap();
    for Binding { field, key, error_message, .. } in &unit.factory.bindings {
        assert_eq!(field, key);
        assert_eq!(error_message, &format!("Couldn't get {}", field));
    }
}
