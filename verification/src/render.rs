//! Rendering an emitted unit to source text: one implementation block with
//! the factory method and the accessors, exactly as the spec-level
//! rendering below lays it out.

use vstd::prelude::*;
use crate::model::{Accessor, AccessorView, Binding, BindingView, EmittedUnit, UnitView};

verus! {

/// The source text of one binding statement.
pub open spec fn spec_render_binding(b: BindingView) -> Seq<char> {
    "        let "@ + b.field + ": "@ + b.type_head + " = builder.object(\""@ + b.key
        + "\").expect(\""@ + b.error_message + "\");\n"@
}

/// The source text of a binding sequence, in order.
pub open spec fn spec_render_bindings(bs: Seq<BindingView>) -> Seq<char>
    decreases bs.len(),
{
    if bs.len() == 0 {
        Seq::empty()
    } else {
        spec_render_binding(bs[0]) + spec_render_bindings(bs.drop_first())
    }
}

/// Appending one binding appends its text.
pub proof fn lemma_render_bindings_push(bs: Seq<BindingView>, x: BindingView)
    ensures
        spec_render_bindings(bs.push(x)) == spec_render_bindings(bs) + spec_render_binding(x),
    decreases bs.len(),
{
    if bs.len() == 0 {
        assert(bs.push(x).drop_first() =~= Seq::<BindingView>::empty());
        assert(bs.push(x)[0] == x);
        assert(spec_render_bindings(bs.push(x)) == spec_render_binding(x) + spec_render_bindings(
            Seq::<BindingView>::empty(),
        ));
        assert(spec_render_bindings(Seq::<BindingView>::empty()) == Seq::<char>::empty());
        assert(spec_render_binding(x) + Seq::<char>::empty() =~= spec_render_binding(x));
        assert(spec_render_bindings(bs) + spec_render_binding(x) =~= spec_render_binding(x));
        assert(spec_render_bindings(bs.push(x)) == spec_render_bindings(bs) + spec_render_binding(
            x,
        ));
    } else {
        assert(bs.push(x).drop_first() =~= bs.drop_first().push(x));
        assert(bs.push(x)[0] == bs[0]);
        lemma_render_bindings_push(bs.drop_first(), x);
        assert(spec_render_binding(bs[0]) + (spec_render_bindings(bs.drop_first())
            + spec_render_binding(x)) =~= (spec_render_binding(bs[0]) + spec_render_bindings(
            bs.drop_first(),
        )) + spec_render_binding(x));
    }
}

/// The source text of one initializer line.
pub open spec fn spec_render_init(name: Seq<char>) -> Seq<char> {
    "            "@ + name + ",\n"@
}

/// The source text of the initializer list, in order.
pub open spec fn spec_render_inits(names: Seq<Seq<char>>) -> Seq<char>
    decreases names.len(),
{
    if names.len() == 0 {
        Seq::empty()
    } else {
        spec_render_init(names[0]) + spec_render_inits(names.drop_first())
    }
}

/// Appending one initializer name appends its line.
pub proof fn lemma_render_inits_push(names: Seq<Seq<char>>, x: Seq<char>)
    ensures
        spec_render_inits(names.push(x)) == spec_render_inits(names) + spec_render_init(x),
    decreases names.len(),
{
    if names.len() == 0 {
        assert(names.push(x).drop_first() =~= Seq::<Seq<char>>::empty());
        assert(names.push(x)[0] == x);
        assert(spec_render_inits(names.push(x)) == spec_render_init(x) + spec_render_inits(
            Seq::<Seq<char>>::empty(),
        ));
        assert(spec_render_inits(Seq::<Seq<char>>::empty()) == Seq::<char>::empty());
        assert(spec_render_init(x) + Seq::<char>::empty() =~= spec_render_init(x));
        assert(spec_render_inits(names) + spec_render_init(x) =~= spec_render_init(x));
        assert(spec_render_inits(names.push(x)) == spec_render_inits(names) + spec_render_init(x));
    } else {
        assert(names.push(x).drop_first() =~= names.drop_first().push(x));
        assert(names.push(x)[0] == names[0]);
        lemma_render_inits_push(names.drop_first(), x);
        assert(spec_render_init(names[0]) + (spec_render_inits(names.drop_first())
            + spec_render_init(x)) =~= (spec_render_init(names[0]) + spec_render_inits(
            names.drop_first(),
        )) + spec_render_init(x));
    }
}

/// The source text of one accessor method.
pub open spec fn spec_render_accessor(a: AccessorView) -> Seq<char> {
    "\n    pub fn "@ + a.name + "(&self) -> &"@ + a.type_head + " {\n        &self."@ + a.field
        + "\n    }\n"@
}

/// The source text of the accessor methods, in order.
pub open spec fn spec_render_accessors(accs: Seq<AccessorView>) -> Seq<char>
    decreases accs.len(),
{
    if accs.len() == 0 {
        Seq::empty()
    } else {
        spec_render_accessor(accs[0]) + spec_render_accessors(accs.drop_first())
    }
}

/// Appending one accessor appends its text.
pub proof fn lemma_render_accessors_push(accs: Seq<AccessorView>, x: AccessorView)
    ensures
        spec_render_accessors(accs.push(x)) == spec_render_accessors(accs) + spec_render_accessor(
            x,
        ),
    decreases accs.len(),
{
    if accs.len() == 0 {
        assert(accs.push(x).drop_first() =~= Seq::<AccessorView>::empty());
        assert(accs.push(x)[0] == x);
        assert(spec_render_accessors(accs.push(x)) == spec_render_accessor(x)
            + spec_render_accessors(Seq::<AccessorView>::empty()));
        assert(spec_render_accessors(Seq::<AccessorView>::empty()) == Seq::<char>::empty());
        assert(spec_render_accessor(x) + Seq::<char>::empty() =~= spec_render_accessor(x));
        assert(spec_render_accessors(accs) + spec_render_accessor(x) =~= spec_render_accessor(x));
        assert(spec_render_accessors(accs.push(x)) == spec_render_accessors(accs)
            + spec_render_accessor(x));
    } else {
        assert(accs.push(x).drop_first() =~= accs.drop_first().push(x));
        assert(accs.push(x)[0] == accs[0]);
        lemma_render_accessors_push(accs.drop_first(), x);
        assert(spec_render_accessor(accs[0]) + (spec_render_accessors(accs.drop_first())
            + spec_render_accessor(x)) =~= (spec_render_accessor(accs[0]) + spec_render_accessors(
            accs.drop_first(),
        )) + spec_render_accessor(x));
    }
}

/// The source text of the whole implementation block.
pub open spec fn spec_render_unit(u: UnitView) -> Seq<char> {
    "impl "@ + u.type_ident + " {\n    pub fn from_builder(builder: &Builder) -> Self {\n"@
        + spec_render_bindings(u.factory.bindings) + "\n        Self {\n"@ + spec_render_inits(
        u.factory.initializer,
    ) + "        }\n    }\n"@ + spec_render_accessors(u.accessors) + "}\n"@
}

/// Render one binding statement.
pub fn render_binding(b: &Binding) -> (r: String)
    ensures
        r@ == spec_render_binding(b@),
{
    let mut r = String::from_str("        let ");
    r.append(b.field.as_str());
    r.append(": ");
    r.append(b.type_head.as_str());
    r.append(" = builder.object(\"");
    r.append(b.key.as_str());
    r.append("\").expect(\"");
    r.append(b.error_message.as_str());
    r.append("\");\n");
    r
}

/// Render one accessor method.
pub fn render_accessor(a: &Accessor) -> (r: String)
    ensures
        r@ == spec_render_accessor(a@),
{
    let mut r = String::from_str("\n    pub fn ");
    r.append(a.name.as_str());
    r.append("(&self) -> &");
    r.append(a.type_head.as_str());
    r.append(" {\n        &self.");
    r.append(a.field.as_str());
    r.append("\n    }\n");
    r
}

/// Render the whole emitted implementation block as source text.
pub fn render_unit(u: &EmittedUnit) -> (r: String)
    ensures
        r@ == spec_render_unit(u@),
{
    let ghost bv = u.factory@.bindings;
    let ghost nv = u.factory@.initializer;
    let ghost av = u@.accessors;

    let mut r = String::from_str("impl ");
    r.append(u.type_ident.as_str());
    r.append(" {\n    pub fn from_builder(builder: &Builder) -> Self {\n");
    let ghost head = r@;

    let n = u.factory.bindings.len();
    let mut i: usize = 0;
    while i < n
        invariant
            i <= n,
            n == u.factory.bindings.len(),
            bv == u.factory@.bindings,
            r@ == head + spec_render_bindings(bv.take(i as int)),
        decreases n - i,
    {
        proof {
            assert(bv.len() == n);
        }
        let line = render_binding(&u.factory.bindings[i]);
        r.append(line.as_str());
        proof {
            assert(bv.take(i + 1) == bv.take(i as int).push(bv[i as int])) by {
                assert(bv.take(i + 1) =~~= bv.take(i as int).push(bv[i as int]));
            }
            lemma_render_bindings_push(bv.take(i as int), bv[i as int]);
            assert((head + spec_render_bindings(bv.take(i as int))) + spec_render_binding(
                bv[i as int],
            ) =~= head + spec_render_bindings(bv.take(i + 1)));
        }
        i += 1;
    }
    proof {
        assert(bv.take(n as int) =~= bv);
    }

    r.append("\n        Self {\n");
    let ghost head2 = r@;

    let m = u.factory.initializer.len();
    let mut j: usize = 0;
    while j < m
        invariant
            j <= m,
            m == u.factory.initializer.len(),
            nv == u.factory@.initializer,
            r@ == head2 + spec_render_inits(nv.take(j as int)),
        decreases m - j,
    {
        proof {
            assert(nv.len() == m);
        }
        r.append("            ");
        r.append(u.factory.initializer[j].as_str());
        r.append(",\n");
        proof {
            assert(nv.take(j + 1) == nv.take(j as int).push(nv[j as int])) by {
                assert(nv.take(j + 1) =~~= nv.take(j as int).push(nv[j as int]));
            }
            lemma_render_inits_push(nv.take(j as int), nv[j as int]);
            assert(((head2 + spec_render_inits(nv.take(j as int)) + "            "@)
                + nv[j as int]) + ",\n"@ =~= head2 + spec_render_inits(nv.take(j + 1)));
        }
        j += 1;
    }
    proof {
        assert(nv.take(m as int) =~= nv);
    }

    r.append("        }\n    }\n");
    let ghost head3 = r@;

    let p = u.accessors.len();
    let mut k: usize = 0;
    while k < p
        invariant
            k <= p,
            p == u.accessors.len(),
            av == u@.accessors,
            r@ == head3 + spec_render_accessors(av.take(k as int)),
        decreases p - k,
    {
        proof {
            assert(av.len() == p);
        }
        let line = render_accessor(&u.accessors[k]);
        r.append(line.as_str());
        proof {
            assert(av.take(k + 1) == av.take(k as int).push(av[k as int])) by {
                assert(av.take(k + 1) =~~= av.take(k as int).push(av[k as int]));
            }
            lemma_render_accessors_push(av.take(k as int), av[k as int]);
            assert((head3 + spec_render_accessors(av.take(k as int))) + spec_render_accessor(
                av[k as int],
            ) =~= head3 + spec_render_accessors(av.take(k + 1)));
        }
        k += 1;
    }
    proof {
        assert(av.take(p as int) =~= av);
    }

    r.append("}\n");
    proof {
        assert(r@ =~= spec_render_unit(u@));
    }
    r
}

} // verus!
