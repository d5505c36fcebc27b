//! The library-wide laws of the synthesizer, stated over the spec-level
//! pipeline and proved once for every record definition.

use vstd::prelude::*;
use crate::model::FieldView;
use crate::synth::{accessor_of, descriptors_of, field_descriptor, fields_supported, unit_of};
use crate::eval::{all_bindings_resolve, instance_of, spec_assoc, lemma_assoc_found};

verus! {

/// No two fields of the record share a name.
pub open spec fn distinct_field_names(fs: Seq<FieldView>) -> bool {
    forall|i: int, j: int|
        0 <= i < j < fs.len() ==> (#[trigger] fs[i]).name != (#[trigger] fs[j]).name
}

/// Every field's name resolves in the registry.
pub open spec fn all_fields_resolve(fs: Seq<FieldView>, reg: Seq<(Seq<char>, u64)>) -> bool {
    forall|i: int| 0 <= i < fs.len() ==> spec_assoc(reg, (#[trigger] fs[i]).name) is Some
}

/// For a record with uniquely-named, single-path-typed fields, the emitted
/// factory method performs exactly one registry lookup per field, keyed by
/// the field's name, in declaration order, and constructs one instance
/// from all of the looked-up objects.
pub proof fn lemma_factory_one_lookup_per_field(
    ident: Seq<char>,
    fs: Seq<FieldView>,
    reg: Seq<(Seq<char>, u64)>,
)
    requires
        fields_supported(fs),
        distinct_field_names(fs),
        all_fields_resolve(fs, reg),
    ensures
        ({
            let u = unit_of(ident, descriptors_of(fs));
            let inst = instance_of(u.factory.bindings, reg);
            &&& u.factory.bindings.len() == fs.len()
            &&& forall|i: int|
                0 <= i < fs.len() ==> (#[trigger] u.factory.bindings[i]).key == fs[i].name
            &&& u.factory.initializer.len() == fs.len()
            &&& forall|i: int|
                0 <= i < fs.len() ==> #[trigger] u.factory.initializer[i] == fs[i].name
            &&& all_bindings_resolve(u.factory.bindings, reg)
            &&& inst.len() == fs.len()
            &&& forall|i: int|
                0 <= i < fs.len() ==> #[trigger] inst[i] == (
                    fs[i].name,
                    spec_assoc(reg, fs[i].name)->0,
                )
        }),
{
    let u = unit_of(ident, descriptors_of(fs));
    assert(forall|i: int|
        0 <= i < fs.len() ==> (#[trigger] u.factory.bindings[i]).key == fs[i].name) by {
        assert(forall|i: int| 0 <= i < fs.len() ==> #[trigger] descriptors_of(fs)[i]
            == field_descriptor(fs[i]));
    }
}

/// Round trip: for a record with uniquely-named, single-path-typed fields,
/// constructed over a registry that resolves every field name, each of the
/// N emitted accessors returns the very object that the factory's lookup
/// bound to its field.
pub proof fn lemma_accessor_round_trip(
    ident: Seq<char>,
    fs: Seq<FieldView>,
    reg: Seq<(Seq<char>, u64)>,
)
    requires
        fields_supported(fs),
        distinct_field_names(fs),
        all_fields_resolve(fs, reg),
    ensures
        ({
            let u = unit_of(ident, descriptors_of(fs));
            let inst = instance_of(u.factory.bindings, reg);
            &&& u.accessors.len() == fs.len()
            &&& forall|i: int|
                0 <= i < fs.len() ==> (#[trigger] u.accessors[i]).field == fs[i].name
            &&& forall|i: int|
                0 <= i < fs.len() ==> spec_assoc(inst, (#[trigger] u.accessors[i]).field)
                    == spec_assoc(reg, fs[i].name)
        }),
{
    let u = unit_of(ident, descriptors_of(fs));
    let inst = instance_of(u.factory.bindings, reg);
    assert forall|i: int| 0 <= i < fs.len() implies spec_assoc(
        inst,
        (#[trigger] u.accessors[i]).field,
    ) == spec_assoc(reg, fs[i].name) by {
        assert(u.accessors[i] == accessor_of(descriptors_of(fs)[i]));
        assert(inst[i] == (fs[i].name, spec_assoc(reg, fs[i].name)->0));
        assert(forall|j: int| 0 <= j < i ==> (#[trigger] inst[j]).0 == fs[j].name);
        lemma_assoc_found(inst, fs[i].name, i);
    }
}

/// For a record with zero fields, the emitted factory performs zero
/// lookups and constructs the instance from an empty initializer,
/// whatever the registry holds.
pub proof fn lemma_empty_record(ident: Seq<char>, reg: Seq<(Seq<char>, u64)>)
    ensures
        ({
            let u = unit_of(ident, descriptors_of(Seq::<FieldView>::empty()));
            &&& u.factory.bindings.len() == 0
            &&& u.factory.initializer.len() == 0
            &&& u.accessors.len() == 0
            &&& all_bindings_resolve(u.factory.bindings, reg)
            &&& instance_of(u.factory.bindings, reg) == Seq::<(Seq<char>, u64)>::empty()
        }),
{
    let u = unit_of(ident, descriptors_of(Seq::<FieldView>::empty()));
    assert(instance_of(u.factory.bindings, reg) =~= Seq::<(Seq<char>, u64)>::empty());
}

} // verus!
