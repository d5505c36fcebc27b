//! The runtime meaning of an emitted unit.
//!
//! The generated factory method looks each field up by name in a
//! named-object registry and aborts on the first miss; each generated
//! accessor hands back the bound object unchanged. This module models that
//! behaviour over plain values: objects are opaque handles (`u64`), the
//! registry is an ordered name-to-handle store, and an instance is the
//! record the factory builds. Coercion of a handle to the field's declared
//! type is outside this model, as the registry itself is outside the
//! synthesizer.

use vstd::prelude::*;
use crate::model::{BindingView, FactoryMethod};

verus! {

/// First-match lookup in an ordered association list.
pub open spec fn spec_assoc(entries: Seq<(Seq<char>, u64)>, key: Seq<char>) -> Option<u64>
    decreases entries.len(),
{
    if entries.len() == 0 {
        None
    } else if entries[0].0 == key {
        Some(entries[0].1)
    } else {
        spec_assoc(entries.drop_first(), key)
    }
}

/// A first match at position `i` is what `spec_assoc` returns.
pub proof fn lemma_assoc_found(entries: Seq<(Seq<char>, u64)>, key: Seq<char>, i: int)
    requires
        0 <= i < entries.len(),
        entries[i].0 == key,
        forall|j: int| 0 <= j < i ==> (#[trigger] entries[j]).0 != key,
    ensures
        spec_assoc(entries, key) == Some(entries[i].1),
    decreases i,
{
    if i > 0 {
        lemma_assoc_found(entries.drop_first(), key, i - 1);
    }
}

/// With no matching key, `spec_assoc` returns nothing.
pub proof fn lemma_assoc_none(entries: Seq<(Seq<char>, u64)>, key: Seq<char>)
    requires
        forall|j: int| 0 <= j < entries.len() ==> (#[trigger] entries[j]).0 != key,
    ensures
        spec_assoc(entries, key) is None,
    decreases entries.len(),
{
    if entries.len() > 0 {
        lemma_assoc_none(entries.drop_first(), key);
    }
}

/// The named-object registry the generated factory consults: an ordered
/// store of (name, object handle) entries; the first entry under a name
/// wins.
#[derive(Debug)]
pub struct Registry {
    pub entries: Vec<(String, u64)>,
}

impl View for Registry {
    type V = Seq<(Seq<char>, u64)>;

    open spec fn view(&self) -> Seq<(Seq<char>, u64)> {
        self.entries.deep_view()
    }
}

impl Registry {
    /// An empty registry.
    pub fn new() -> (r: Registry)
        ensures
            r@ == Seq::<(Seq<char>, u64)>::empty(),
    {
        let r = Registry { entries: Vec::new() };
        proof {
            assert(r@ =~= Seq::<(Seq<char>, u64)>::empty());
        }
        r
    }

    /// Register `object` under `name`.
    pub fn insert(&mut self, name: String, object: u64)
        ensures
            final(self)@ == old(self)@.push((name@, object)),
    {
        let ghost pre = self@;
        self.entries.push((name, object));
        proof {
            assert(self@ =~= pre.push((name@, object)));
        }
    }

    /// Look the key up: the first entry registered under it, if any.
    pub fn lookup(&self, key: &String) -> (r: Option<u64>)
        ensures
            r == spec_assoc(self@, key@),
    {
        let n = self.entries.len();
        let mut i: usize = 0;
        while i < n
            invariant
                i <= n,
                n == self.entries.len(),
                forall|j: int| 0 <= j < i ==> (#[trigger] self@[j]).0 != key@,
            decreases n - i,
        {
            proof {
                assert(self@.len() == n);
            }
            if self.entries[i].0 == *key {
                proof {
                    lemma_assoc_found(self@, key@, i as int);
                }
                return Some(self.entries[i].1);
            }
            i += 1;
        }
        proof {
            assert(self@.len() == n);
            lemma_assoc_none(self@, key@);
        }
        None
    }
}

/// The record instance the generated factory constructs: each field's
/// name, paired with the object handle bound to it, in declaration order.
#[derive(Debug)]
pub struct Instance {
    pub fields: Vec<(String, u64)>,
}

impl View for Instance {
    type V = Seq<(Seq<char>, u64)>;

    open spec fn view(&self) -> Seq<(Seq<char>, u64)> {
        self.fields.deep_view()
    }
}

impl Instance {
    /// What a generated accessor returns: the object bound to the field,
    /// read-only; nothing for a name that is not a field.
    pub fn read_field(&self, name: &String) -> (r: Option<u64>)
        ensures
            r == spec_assoc(self@, name@),
    {
        let n = self.fields.len();
        let mut i: usize = 0;
        while i < n
            invariant
                i <= n,
                n == self.fields.len(),
                forall|j: int| 0 <= j < i ==> (#[trigger] self@[j]).0 != name@,
            decreases n - i,
        {
            proof {
                assert(self@.len() == n);
            }
            if self.fields[i].0 == *name {
                proof {
                    lemma_assoc_found(self@, name@, i as int);
                }
                return Some(self.fields[i].1);
            }
            i += 1;
        }
        proof {
            assert(self@.len() == n);
            lemma_assoc_none(self@, name@);
        }
        None
    }
}

/// Every binding's key resolves in the registry.
pub open spec fn all_bindings_resolve(
    bindings: Seq<BindingView>,
    reg: Seq<(Seq<char>, u64)>,
) -> bool {
    forall|i: int| 0 <= i < bindings.len() ==> spec_assoc(reg, (#[trigger] bindings[i]).key) is Some
}

/// The instance a factory builds over a registry that resolves every
/// binding: one field per binding, in order, holding the looked-up object.
pub open spec fn instance_of(
    bindings: Seq<BindingView>,
    reg: Seq<(Seq<char>, u64)>,
) -> Seq<(Seq<char>, u64)> {
    bindings.map_values(|b: BindingView| (b.field, spec_assoc(reg, b.key)->0))
}

/// `i` is the first binding whose key the registry does not resolve.
pub open spec fn is_first_missing(
    bindings: Seq<BindingView>,
    reg: Seq<(Seq<char>, u64)>,
    i: int,
) -> bool {
    &&& 0 <= i < bindings.len()
    &&& spec_assoc(reg, bindings[i].key) is None
    &&& forall|j: int| 0 <= j < i ==> spec_assoc(reg, (#[trigger] bindings[j]).key) is Some
}

/// The runtime abort of the generated factory: which field's lookup
/// missed, and the message the emitted code aborts with.
#[derive(Debug)]
pub struct BindingFailure {
    pub field: String,
    pub message: String,
}

/// Run the factory method over a registry: perform one lookup per binding,
/// in declaration order, and construct the instance from all of them, or
/// abort at the first miss with that binding's message.
pub fn run_factory(factory: &FactoryMethod, reg: &Registry) -> (r: Result<
    Instance,
    BindingFailure,
>)
    ensures
        match r {
            Ok(inst) => {
                &&& all_bindings_resolve(factory@.bindings, reg@)
                &&& inst@ == instance_of(factory@.bindings, reg@)
            },
            Err(e) => exists|i: int|
                {
                    &&& #[trigger] is_first_missing(factory@.bindings, reg@, i)
                    &&& e.field@ == factory@.bindings[i].field
                    &&& e.message@ == factory@.bindings[i].error_message
                },
        },
{
    let ghost bv = factory@.bindings;
    let mut fields: Vec<(String, u64)> = Vec::new();
    let n = factory.bindings.len();
    let mut i: usize = 0;
    while i < n
        invariant
            i <= n,
            n == factory.bindings.len(),
            bv == factory@.bindings,
            forall|j: int| 0 <= j < i ==> spec_assoc(reg@, (#[trigger] bv[j]).key) is Some,
            fields.deep_view() == instance_of(bv.take(i as int), reg@),
        decreases n - i,
    {
        proof {
            assert(bv.len() == n);
            assert(fields.deep_view().len() == i as int);
            assert(fields@.len() == i as int);
        }
        let b = &factory.bindings[i];
        match reg.lookup(&b.key) {
            Some(object) => {
                fields.push((b.field.clone(), object));
                proof {
                    assert(bv.take(i + 1) == bv.take(i as int).push(bv[i as int])) by {
                        assert(bv.take(i + 1) =~~= bv.take(i as int).push(bv[i as int]));
                    }
                    assert(fields@.len() == i + 1);
                    assert(forall|k: int| 0 <= k < i ==> fields.deep_view()[k] == instance_of(
                        bv.take(i as int),
                        reg@,
                    )[k]);
                    assert(instance_of(bv.take(i + 1), reg@)[i as int] == (
                        bv[i as int].field,
                        spec_assoc(reg@, bv[i as int].key)->0,
                    ));
                    assert(fields.deep_view()[i as int] == (
                        bv[i as int].field,
                        spec_assoc(reg@, bv[i as int].key)->0,
                    ));
                    assert(fields.deep_view() =~~= instance_of(bv.take(i + 1), reg@));
                }
            },
            None => {
                proof {
                    assert(is_first_missing(bv, reg@, i as int));
                }
                return Err(
                    BindingFailure { field: b.field.clone(), message: b.error_message.clone() },
                );
            },
        }
        i += 1;
    }
    proof {
        assert(bv.take(n as int) =~~= bv);
    }
    let inst = Instance { fields };
    Ok(inst)
}

} // verus!
