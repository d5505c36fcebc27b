//! The synthesizer: shape extraction, field-descriptor extraction, code
//! emission, and the entry point that drives them.
//!
//! Each stage's contract is stated over the spec-level pipeline below, so
//! the emitted unit is pinned exactly by the input definition.

use vstd::prelude::*;
use crate::model::{
    Accessor, AccessorView, AnnView, Binding, BindingView, DescView, EmittedUnit, FactoryMethod,
    FactoryView, FieldDef, FieldDescriptor, FieldView, Shape, SynthError, TypeAnnotation,
    TypeDefinition, UnitView,
};

verus! {

/// A type annotation the synthesizer understands: a path with at least
/// one segment.
pub open spec fn ann_supported(t: AnnView) -> bool {
    t matches AnnView::Path { segments } && segments.len() > 0
}

/// The head (leading) segment of a supported annotation.
pub open spec fn ann_head(t: AnnView) -> Seq<char>
    recommends
        ann_supported(t),
{
    t->Path_segments[0]
}

/// The descriptor extracted from one field: its name and its type head.
pub open spec fn field_descriptor(f: FieldView) -> DescView {
    DescView { name: f.name, type_head: ann_head(f.ty) }
}

/// Every field's annotation is in the single-path form.
pub open spec fn fields_supported(fs: Seq<FieldView>) -> bool {
    forall|i: int| 0 <= i < fs.len() ==> ann_supported(#[trigger] fs[i].ty)
}

/// The descriptor sequence of a supported field list, in declaration order.
pub open spec fn descriptors_of(fs: Seq<FieldView>) -> Seq<DescView> {
    fs.map_values(|f: FieldView| field_descriptor(f))
}

/// `i` is the first field whose annotation the synthesizer rejects.
pub open spec fn is_first_unsupported(fs: Seq<FieldView>, i: int) -> bool {
    &&& 0 <= i < fs.len()
    &&& !ann_supported(fs[i].ty)
    &&& forall|j: int| 0 <= j < i ==> ann_supported(#[trigger] fs[j].ty)
}

/// The abort message the factory method carries for a missing registry
/// entry.
pub open spec fn missing_message(name: Seq<char>) -> Seq<char> {
    "Couldn't get "@ + name
}

/// The binding statement emitted for one descriptor: the registry key is
/// the field's own name.
pub open spec fn binding_of(d: DescView) -> BindingView {
    BindingView {
        field: d.name,
        type_head: d.type_head,
        key: d.name,
        error_message: missing_message(d.name),
    }
}

/// The binding statements of a descriptor sequence, in declaration order.
pub open spec fn bindings_of(ds: Seq<DescView>) -> Seq<BindingView> {
    ds.map_values(|d: DescView| binding_of(d))
}

/// The initializer names of a descriptor sequence, in declaration order.
pub open spec fn initializer_of(ds: Seq<DescView>) -> Seq<Seq<char>> {
    ds.map_values(|d: DescView| d.name)
}

/// The factory method emitted for a descriptor sequence: one binding per
/// descriptor, in order, then an initializer naming each bound field.
pub open spec fn factory_of(ds: Seq<DescView>) -> FactoryView {
    FactoryView { bindings: bindings_of(ds), initializer: initializer_of(ds) }
}

/// The accessor emitted for one descriptor: a method named after the
/// field, returning a read-only reference to it.
pub open spec fn accessor_of(d: DescView) -> AccessorView {
    AccessorView { name: d.name, field: d.name, type_head: d.type_head }
}

/// The accessor methods of a descriptor sequence, in declaration order.
pub open spec fn accessors_of(ds: Seq<DescView>) -> Seq<AccessorView> {
    ds.map_values(|d: DescView| accessor_of(d))
}

/// The whole implementation block emitted for a record named `ident` with
/// descriptors `ds`.
pub open spec fn unit_of(ident: Seq<char>, ds: Seq<DescView>) -> UnitView {
    UnitView { type_ident: ident, factory: factory_of(ds), accessors: accessors_of(ds) }
}

/// The diagnostic text for a rejected field.
pub open spec fn diagnostic_of(name: Seq<char>) -> Seq<char> {
    "unsupported type annotation on field "@ + name
}

impl SynthError {
    /// The diagnostic that identifies the offending field.
    pub fn describe(&self) -> (r: String)
        ensures
            r@ == diagnostic_of(self.spec_field()),
    {
        let mut r = String::from_str("unsupported type annotation on field ");
        r.append(self.field_name().as_str());
        r
    }
}

/// Shape extraction: the ordered field list of a named-fields record,
/// `None` for every other shape (the silent no-op path).
pub fn named_fields<'a>(def: &'a TypeDefinition) -> (r: Option<&'a Vec<FieldDef>>)
    ensures
        (r is Some) <==> (def.shape is Named),
        r matches Some(fs) ==> fs.deep_view() == def@.shape->Named_fields,
{
    match &def.shape {
        Shape::Named { fields } => Some(fields),
        _ => None,
    }
}

/// Field-descriptor extraction: the (name, type-head) pair of every field,
/// in declaration order, or the first field whose annotation is not a
/// single-path form.
pub fn extract_descriptors(fields: &Vec<FieldDef>) -> (r: Result<
    Vec<FieldDescriptor>,
    SynthError,
>)
    ensures
        match r {
            Ok(ds) => {
                &&& fields_supported(fields.deep_view())
                &&& ds.deep_view() == descriptors_of(fields.deep_view())
            },
            Err(e) => exists|i: int|
                {
                    &&& #[trigger] is_first_unsupported(fields.deep_view(), i)
                    &&& e.spec_field() == fields.deep_view()[i].name
                },
        },
{
    let ghost fv = fields.deep_view();
    let mut ds: Vec<FieldDescriptor> = Vec::new();
    let n = fields.len();
    let mut i: usize = 0;
    while i < n
        invariant
            i <= n,
            n == fields.len(),
            fv == fields.deep_view(),
            forall|j: int| 0 <= j < i ==> ann_supported(#[trigger] fv[j].ty),
            ds.deep_view() == descriptors_of(fv.take(i as int)),
        decreases n - i,
    {
        let f = &fields[i];
        let supported_head = match &f.ty {
            TypeAnnotation::Path { segments } => {
                if segments.len() == 0 {
                    None
                } else {
                    Some(segments[0].clone())
                }
            },
            TypeAnnotation::Unsupported => None,
        };
        match supported_head {
            Some(head) => {
                proof {
                    assert(fv.len() == n);
                    assert(ds.deep_view().len() == i as int);
                    assert(ds@.len() == i as int);
                }
                ds.push(FieldDescriptor { name: f.name.clone(), type_head: head });
                proof {
                    assert(ds@.len() == i + 1);
                    assert(fv.take(i + 1) == fv.take(i as int).push(fv[i as int])) by {
                        assert(fv.take(i + 1) =~~= fv.take(i as int).push(fv[i as int]));
                    }
                    assert(ds.deep_view().len() == i + 1);
                    assert(forall|k: int| 0 <= k < i ==> ds.deep_view()[k] == descriptors_of(
                        fv.take(i as int),
                    )[k]);
                    assert(descriptors_of(fv.take(i + 1))[i as int] == field_descriptor(
                        fv[i as int],
                    ));
                    assert(ds.deep_view()[i as int].name == field_descriptor(fv[i as int]).name);
                    assert(ds.deep_view()[i as int].type_head == field_descriptor(
                        fv[i as int],
                    ).type_head);
                    assert(ds.deep_view() =~~= descriptors_of(fv.take(i + 1)));
                }
            },
            None => {
                proof {
                    assert(is_first_unsupported(fv, i as int));
                }
                return Err(SynthError::UnsupportedFieldType { field: f.name.clone() });
            },
        }
        i += 1;
    }
    proof {
        assert(fv.take(n as int) =~~= fv);
    }
    Ok(ds)
}

/// Factory-method emission: one registry-lookup binding per descriptor, in
/// declaration order, then the initializer list over the same names.
pub fn emit_factory(descs: &Vec<FieldDescriptor>) -> (r: FactoryMethod)
    ensures
        r@ == factory_of(descs.deep_view()),
{
    let ghost dv = descs.deep_view();
    let mut bindings: Vec<Binding> = Vec::new();
    let mut initializer: Vec<String> = Vec::new();
    let n = descs.len();
    let mut i: usize = 0;
    while i < n
        invariant
            i <= n,
            n == descs.len(),
            dv == descs.deep_view(),
            bindings.deep_view() == bindings_of(dv.take(i as int)),
            initializer.deep_view() == initializer_of(dv.take(i as int)),
        decreases n - i,
    {
        let d = &descs[i];
        proof {
            assert(dv.len() == n);
            assert(bindings.deep_view().len() == i as int);
            assert(bindings@.len() == i as int);
            assert(initializer.deep_view().len() == i as int);
            assert(initializer@.len() == i as int);
        }
        let mut message = String::from_str("Couldn't get ");
        message.append(d.name.as_str());
        bindings.push(
            Binding {
                field: d.name.clone(),
                type_head: d.type_head.clone(),
                key: d.name.clone(),
                error_message: message,
            },
        );
        initializer.push(d.name.clone());
        proof {
            assert(dv.take(i + 1) == dv.take(i as int).push(dv[i as int])) by {
                assert(dv.take(i + 1) =~~= dv.take(i as int).push(dv[i as int]));
            }
            assert(bindings@.len() == i + 1);
            assert(initializer@.len() == i + 1);
            assert(forall|k: int| 0 <= k < i ==> bindings.deep_view()[k] == bindings_of(
                dv.take(i as int),
            )[k]);
            assert(bindings_of(dv.take(i + 1))[i as int] == binding_of(dv[i as int]));
            assert(bindings.deep_view()[i as int] == binding_of(dv[i as int]));
            assert(forall|k: int| 0 <= k < i ==> initializer.deep_view()[k] == initializer_of(
                dv.take(i as int),
            )[k]);
            assert(initializer_of(dv.take(i + 1))[i as int] == dv[i as int].name);
            assert(initializer.deep_view()[i as int] == dv[i as int].name);
            assert(bindings.deep_view() =~~= bindings_of(dv.take(i + 1)));
            assert(initializer.deep_view() =~~= initializer_of(dv.take(i + 1)));
        }
        i += 1;
    }
    proof {
        assert(dv.take(n as int) =~~= dv);
    }
    let r = FactoryMethod { bindings, initializer };
    proof {
        assert(r@ =~~= factory_of(dv));
    }
    r
}

/// Accessor emission: one read-only accessor per descriptor, named after
/// the field, in declaration order.
pub fn emit_accessors(descs: &Vec<FieldDescriptor>) -> (r: Vec<Accessor>)
    ensures
        r.deep_view() == accessors_of(descs.deep_view()),
{
    let ghost dv = descs.deep_view();
    let mut accessors: Vec<Accessor> = Vec::new();
    let n = descs.len();
    let mut i: usize = 0;
    while i < n
        invariant
            i <= n,
            n == descs.len(),
            dv == descs.deep_view(),
            accessors.deep_view() == accessors_of(dv.take(i as int)),
        decreases n - i,
    {
        let d = &descs[i];
        proof {
            assert(dv.len() == n);
            assert(accessors.deep_view().len() == i as int);
            assert(accessors@.len() == i as int);
        }
        accessors.push(
            Accessor {
                name: d.name.clone(),
                field: d.name.clone(),
                type_head: d.type_head.clone(),
            },
        );
        proof {
            assert(dv.take(i + 1) == dv.take(i as int).push(dv[i as int])) by {
                assert(dv.take(i + 1) =~~= dv.take(i as int).push(dv[i as int]));
            }
            assert(accessors@.len() == i + 1);
            assert(forall|k: int| 0 <= k < i ==> accessors.deep_view()[k] == accessors_of(
                dv.take(i as int),
            )[k]);
            assert(accessors_of(dv.take(i + 1))[i as int] == accessor_of(dv[i as int]));
            assert(accessors.deep_view()[i as int] == accessor_of(dv[i as int]));
            assert(accessors.deep_view() =~~= accessors_of(dv.take(i + 1)));
        }
        i += 1;
    }
    proof {
        assert(dv.take(n as int) =~~= dv);
    }
    accessors
}

/// The entry point: drives shape extraction, descriptor extraction and
/// emission, and wraps the fragments into one implementation block.
///
/// A named-fields record with supported annotations yields exactly the
/// unit `unit_of` describes; any other shape is a silent no-op; a field
/// with an unsupported annotation is fatal and names the first such field.
pub fn expand(def: &TypeDefinition) -> (r: Result<Option<EmittedUnit>, SynthError>)
    ensures
        match r {
            Ok(Some(u)) => {
                &&& def.shape is Named
                &&& fields_supported(def@.shape->Named_fields)
                &&& u@ == unit_of(def.ident@, descriptors_of(def@.shape->Named_fields))
            },
            Ok(None) => !(def.shape is Named),
            Err(e) => {
                &&& def.shape is Named
                &&& exists|i: int|
                    {
                        &&& #[trigger] is_first_unsupported(def@.shape->Named_fields, i)
                        &&& e.spec_field() == def@.shape->Named_fields[i].name
                    }
            },
        },
{
    let fields = match named_fields(def) {
        Some(fields) => fields,
        None => {
            return Ok(None);
        },
    };
    let descs = match extract_descriptors(fields) {
        Ok(descs) => descs,
        Err(e) => {
            return Err(e);
        },
    };
    let factory = emit_factory(&descs);
    let accessors = emit_accessors(&descs);
    let unit = EmittedUnit { type_ident: def.ident.clone(), factory, accessors };
    proof {
        assert(unit@ =~~= unit_of(def.ident@, descriptors_of(def@.shape->Named_fields)));
    }
    Ok(Some(unit))
}

} // verus!

