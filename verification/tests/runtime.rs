use gtk_widget_macro::eval::{run_factory, Instance, Registry};
use gtk_widget_macro::model::{FieldDef, Shape, TypeAnnotation, TypeDefinition};
use gtk_widget_macro::synth::expand;

fn path(segment: &str) -> TypeAnnotation {
    TypeAnnotation::Path { segments: vec![segment.to_string()] }
}

fn field(name: &str, segment: &str) -> FieldDef {
    FieldDef { name: name.to_string(), ty: path(segment) }
}

fn window_def() -> TypeDefinition {
    TypeDefinition {
        ident: "Window".to_string(),
        shape: Shape::Named {
            fields: vec![field("title", "Label"), field("button", "Button")],
        },
    }
}

fn read(inst: &Instance, name: &str) -> Option<u64> {
    inst.read_field(&name.to_string())
}

#[test]
fn factory_binds_registry_objects_round_trip() {
    let unit = expand(&window_def()).unwrap().unwrap();
    let mut reg = Registry::new();
    reg.insert("title".to_string(), 17);
    reg.insert("button".to_string(), 42);
    let inst = run_factory(&unit.factory, &reg).unwrap();
    assert_eq!(inst.fields.len(), 2);
    // Each accessor hands back exactly the object the lookup bound.
    for acc in &unit.accessors {
        let got = inst.read_field(&acc.field);
        assert_eq!(got, reg.lookup(&acc.field));
    }
    assert_eq!(read(&inst, "title"), Some(17));
    assert_eq!(read(&inst, "button"), Some(42));
}

#[test]
fn missing_entry_aborts_with_field_name() {
    let unit = expand(&window_def()).unwrap().unwrap();
    let mut reg = Registry::new();
    reg.insert("title".to_string(), 17);
    let failure = run_factory(&unit.factory, &reg).unwrap_err();
    assert_eq!(failure.field, "button");
    assert_eq!(failure.message, "Couldn't get button");
    assert!(failure.message.contains("button"));
}

#[test]
fn first_missing_binding_wins() {
    let unit = expand(&window_def()).unwrap().unwrap();
    let reg = Registry::new();
    let failure = run_factory(&unit.factory, &reg).unwrap_err();
    assert_eq!(failure.field, "title");
    assert_eq!(failure.message, "Couldn't get title");
}

#[test]
fn zero_field_factory_builds_from_empty_initializer() {
    let def = TypeDefinition {
        ident: "Empty".to_string(),
        shape: Shape::Named { fields: vec![] },
    };
    let unit = expand(&def).unwrap().unwrap();
    let reg = Registry::new();
    let inst = run_factory(&unit.factory, &reg).unwrap();
    assert_eq!(inst.fields.len(), 0);
    assert_eq!(read(&inst, "anything"), None);
}

#[test]
fn registry_lookup_is_first_match() {
    let mut reg = Registry::new();
    reg.insert("title".to_string(), 1);
    reg.insert("title".to_string(), 2);
    assert_eq!(reg.lookup(&"title".to_string()), Some(1));
    assert_eq!(reg.lookup(&"absent".to_string()), None);
}

#[test]
fn instance_fields_keep_declaration_order() {
    let unit = expand(&window_def()).unwrap().unwrap();
    let mut reg = Registry::new();
    reg.insert("button".to_string(), 42);
    reg.insert("title".to_string(), 17);
    let inst = run_factory(&unit.factory, &reg).unwrap();
    assert_eq!(inst.fields[0].0, "title");
    assert_eq!(inst.fields[0].1, 17);
    assert_eq!(inst.fields[1].0, "button");
    assert_eq!(inst.fields[1].1, 42);
}
