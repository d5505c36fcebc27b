use gtk_widget_macro::model::{FieldDef, Shape, TypeAnnotation, TypeDefinition};
use gtk_widget_macro::render::{render_accessor, render_binding, render_unit};
use gtk_widget_macro::synth::expand;

fn field(name: &str, segment: &str) -> FieldDef {
    FieldDef {
        name: name.to_string(),
        ty: TypeAnnotation::Path { segments: vec![segment.to_string()] },
    }
}

fn expand_named(ident: &str, fields: Vec<FieldDef>) -> gtk_widget_macro::model::EmittedUnit {
    let def = TypeDefinition { ident: ident.to_string(), shape: Shape::Named { fields } };
    expand(&def).unwrap().unwrap()
}

#[test]
fn binding_statement_text() {
    let unit = expand_named("Window", vec![field("title", "Label")]);
    let text = render_binding(&unit.factory.bindings[0]);
    assert_eq!(
        text,
        "        let title: Label = builder.object(\"title\").expect(\"Couldn't get title\");\n"
    );
}

#[test]
fn accessor_method_text() {
    let unit = expand_named("Window", vec![field("title", "Label")]);
    let text = render_accessor(&unit.accessors[0]);
    assert_eq!(text, "\n    pub fn title(&self) -> &Label {\n        &self.title\n    }\n");
}

#[test]
fn whole_unit_text() {
    let unit = expand_named("Window", vec![field("title", "Label"), field("button", "Button")]);
    let text = render_unit(&unit);
    let expected = String::from("impl Window {\n")
        + "    pub fn from_builder(builder: &Builder) -> Self {\n"
        + "        let title: Label = builder.object(\"title\").expect(\"Couldn't get title\");\n"
        + "        let button: Button = builder.object(\"button\").expect(\"Couldn't get button\");\n"
        + "\n"
        + "        Self {\n"
        + "            title,\n"
        + "            button,\n"
        + "        }\n"
        + "    }\n"
        + "\n"
        + "    pub fn title(&self) -> &Label {\n"
        + "        &self.title\n"
        + "    }\n"
        + "\n"
        + "    pub fn button(&self) -> &Button {\n"
        + "        &self.button\n"
        + "    }\n"
        + "}\n";
    assert_eq!(text, expected);
}

#[test]
fn zero_field_unit_text() {
    let unit = expand_named("Empty", vec![]);
    let text = render_unit(&unit);
    let expected = String::from("impl Empty {\n")
        + "    pub fn from_builder(builder: &Builder) -> Self {\n"
        + "\n"
        + "        Self {\n"
        + "        }\n"
        + "    }\n"
        + "}\n";
    assert_eq!(text, expected);
}
