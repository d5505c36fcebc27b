//! The data the synthesizer works on: the shape of an input record type,
//! the field descriptors extracted from it, and the emitted code fragments.

use vstd::prelude::*;

verus! {

/// The declared type annotation of one record field, as far as the
/// synthesizer reads it.
#[derive(Debug)]
pub enum TypeAnnotation {
    /// A path type (`Label`, `gtk::Label`): its ordered path segments.
    Path { segments: Vec<String> },
    /// Any other form (tuple type, reference type, ...); the synthesizer
    /// has no representation for these and rejects fields that carry one.
    Unsupported,
}

/// Mathematical value of a `TypeAnnotation`.
#[verifier::ext_equal]
pub enum AnnView {
    Path { segments: Seq<Seq<char>> },
    Unsupported,
}

impl View for TypeAnnotation {
    type V = AnnView;

    open spec fn view(&self) -> AnnView {
        match self {
            TypeAnnotation::Path { segments } => AnnView::Path { segments: segments.deep_view() },
            TypeAnnotation::Unsupported => AnnView::Unsupported,
        }
    }
}

impl DeepView for TypeAnnotation {
    type V = AnnView;

    open spec fn deep_view(&self) -> AnnView {
        self.view()
    }
}

/// One named field of the input record: its identifier and its declared
/// type annotation.
#[derive(Debug)]
pub struct FieldDef {
    pub name: String,
    pub ty: TypeAnnotation,
}

/// Mathematical value of a `FieldDef`.
#[verifier::ext_equal]
pub struct FieldView {
    pub name: Seq<char>,
    pub ty: AnnView,
}

impl View for FieldDef {
    type V = FieldView;

    open spec fn view(&self) -> FieldView {
        FieldView { name: self.name@, ty: self.ty@ }
    }
}

impl DeepView for FieldDef {
    type V = FieldView;

    open spec fn deep_view(&self) -> FieldView {
        self.view()
    }
}

/// The shape of the input type definition. Only `Named` records get a
/// binding surface; every other shape is left alone.
#[derive(Debug)]
pub enum Shape {
    Named { fields: Vec<FieldDef> },
    Tuple { types: Vec<TypeAnnotation> },
    Unit,
    Enumeration,
    Union,
}

/// Mathematical value of a `Shape`.
#[verifier::ext_equal]
pub enum ShapeView {
    Named { fields: Seq<FieldView> },
    Tuple { types: Seq<AnnView> },
    Unit,
    Enumeration,
    Union,
}

impl View for Shape {
    type V = ShapeView;

    open spec fn view(&self) -> ShapeView {
        match self {
            Shape::Named { fields } => ShapeView::Named { fields: fields.deep_view() },
            Shape::Tuple { types } => ShapeView::Tuple { types: types.deep_view() },
            Shape::Unit => ShapeView::Unit,
            Shape::Enumeration => ShapeView::Enumeration,
            Shape::Union => ShapeView::Union,
        }
    }
}

impl DeepView for Shape {
    type V = ShapeView;

    open spec fn deep_view(&self) -> ShapeView {
        self.view()
    }
}

/// The input to one synthesizer invocation: the record's identifier and
/// its shape.
#[derive(Debug)]
pub struct TypeDefinition {
    pub ident: String,
    pub shape: Shape,
}

/// Mathematical value of a `TypeDefinition`.
#[verifier::ext_equal]
pub struct DefView {
    pub ident: Seq<char>,
    pub shape: ShapeView,
}

impl View for TypeDefinition {
    type V = DefView;

    open spec fn view(&self) -> DefView {
        DefView { ident: self.ident@, shape: self.shape@ }
    }
}

impl DeepView for TypeDefinition {
    type V = DefView;

    open spec fn deep_view(&self) -> DefView {
        self.view()
    }
}

/// What the synthesizer keeps of one field: its name and the head segment
/// of its declared type.
#[derive(Debug)]
pub struct FieldDescriptor {
    pub name: String,
    pub type_head: String,
}

/// Mathematical value of a `FieldDescriptor`.
#[verifier::ext_equal]
pub struct DescView {
    pub name: Seq<char>,
    pub type_head: Seq<char>,
}

impl View for FieldDescriptor {
    type V = DescView;

    open spec fn view(&self) -> DescView {
        DescView { name: self.name@, type_head: self.type_head@ }
    }
}

impl DeepView for FieldDescriptor {
    type V = DescView;

    open spec fn deep_view(&self) -> DescView {
        self.view()
    }
}

/// One emitted binding statement of the factory method: look up `key` in
/// the registry, coerce the result to `type_head`, bind it to `field`, and
/// abort with `error_message` when the lookup misses.
#[derive(Debug)]
pub struct Binding {
    pub field: String,
    pub type_head: String,
    pub key: String,
    pub error_message: String,
}

/// Mathematical value of a `Binding`.
#[verifier::ext_equal]
pub struct BindingView {
    pub field: Seq<char>,
    pub type_head: Seq<char>,
    pub key: Seq<char>,
    pub error_message: Seq<char>,
}

impl View for Binding {
    type V = BindingView;

    open spec fn view(&self) -> BindingView {
        BindingView {
            field: self.field@,
            type_head: self.type_head@,
            key: self.key@,
            error_message: self.error_message@,
        }
    }
}

impl DeepView for Binding {
    type V = BindingView;

    open spec fn deep_view(&self) -> BindingView {
        self.view()
    }
}

/// The emitted factory method: its binding statements in declaration
/// order, then the record-construction expression's initializer names.
#[derive(Debug)]
pub struct FactoryMethod {
    pub bindings: Vec<Binding>,
    pub initializer: Vec<String>,
}

/// Mathematical value of a `FactoryMethod`.
#[verifier::ext_equal]
pub struct FactoryView {
    pub bindings: Seq<BindingView>,
    pub initializer: Seq<Seq<char>>,
}

impl View for FactoryMethod {
    type V = FactoryView;

    open spec fn view(&self) -> FactoryView {
        FactoryView {
            bindings: self.bindings.deep_view(),
            initializer: self.initializer.deep_view(),
        }
    }
}

impl DeepView for FactoryMethod {
    type V = FactoryView;

    open spec fn deep_view(&self) -> FactoryView {
        self.view()
    }
}

/// One emitted accessor method: named `name`, returning a read-only
/// reference to `field`, whose declared type head is `type_head`.
#[derive(Debug)]
pub struct Accessor {
    pub name: String,
    pub field: String,
    pub type_head: String,
}

/// Mathematical value of an `Accessor`.
#[verifier::ext_equal]
pub struct AccessorView {
    pub name: Seq<char>,
    pub field: Seq<char>,
    pub type_head: Seq<char>,
}

impl View for Accessor {
    type V = AccessorView;

    open spec fn view(&self) -> AccessorView {
        AccessorView { name: self.name@, field: self.field@, type_head: self.type_head@ }
    }
}

impl DeepView for Accessor {
    type V = AccessorView;

    open spec fn deep_view(&self) -> AccessorView {
        self.view()
    }
}

/// The synthesized implementation block: one factory method and one
/// accessor per field, attached to the type named `type_ident`.
#[derive(Debug)]
pub struct EmittedUnit {
    pub type_ident: String,
    pub factory: FactoryMethod,
    pub accessors: Vec<Accessor>,
}

/// Mathematical value of an `EmittedUnit`.
#[verifier::ext_equal]
pub struct UnitView {
    pub type_ident: Seq<char>,
    pub factory: FactoryView,
    pub accessors: Seq<AccessorView>,
}

impl View for EmittedUnit {
    type V = UnitView;

    open spec fn view(&self) -> UnitView {
        UnitView {
            type_ident: self.type_ident@,
            factory: self.factory@,
            accessors: self.accessors.deep_view(),
        }
    }
}

impl DeepView for EmittedUnit {
    type V = UnitView;

    open spec fn deep_view(&self) -> UnitView {
        self.view()
    }
}

/// The one fatal condition of synthesis: a field whose type annotation is
/// not in single-path form. Surfaced as a compile error by the caller.
#[derive(Debug)]
pub enum SynthError {
    UnsupportedFieldType { field: String },
}

impl SynthError {
    /// The name of the field the diagnostic is about.
    pub open spec fn spec_field(&self) -> Seq<char> {
        match self {
            SynthError::UnsupportedFieldType { field } => field@,
        }
    }

    /// The name of the offending field.
    pub fn field_name(&self) -> (r: &String)
        ensures
            r@ == self.spec_field(),
    {
        match self {
            SynthError::UnsupportedFieldType { field } => field,
        }
    }
}

} // verus!
