//! What a generated predicate means at run time. An instance of the sum
//! type is modelled by the variant it currently holds and the data carried
//! with it; evaluating a generated method's two-arm match on such an
//! instance yields `true` exactly when the arm's variant path and field
//! pattern both match. The laws at the end say that, over a well-formed
//! instance, every generated predicate is a pure tag test: true exactly
//! when its variant is the active one, whatever data is held and whatever
//! zero-data shape the variant was declared with.

use vstd::prelude::*;
use crate::ast::{FieldShape, TypeDescription, Variant};
use crate::generate::{
    generated_from, is_method_for, pattern_of_shape, FieldPattern, GeneratedImpl, GeneratedMethod,
};

verus! {

/// The data an instance carries at run time, reduced to what pattern
/// matching can see: the structural category, the positional arity, and the
/// field names. Field values are stand-in words — the generated patterns
/// are wildcards, so no value is ever inspected.
pub enum FieldData {
    /// The instance was built from the bare variant path.
    Unit,
    /// The instance was built with a (possibly empty) positional field list.
    Positional(Vec<u64>),
    /// The instance was built with named fields.
    Named(Vec<(String, u64)>),
}

/// A run-time instance of the sum type, as a generated match sees it:
/// which variant is active, and the data it was built with.
pub struct Instance {
    pub variant_name: String,
    pub data: FieldData,
}

/// Whether a match-arm field pattern accepts the data an instance holds.
/// The wildcard patterns accept any arity and any field set; the bare path
/// accepts exactly an instance built from the bare path.
pub open spec fn pattern_admits(p: FieldPattern, d: FieldData) -> bool {
    match p {
        FieldPattern::Bare => d is Unit,
        FieldPattern::AnyPositional => d is Positional,
        FieldPattern::AnyNamed => d is Named,
    }
}

/// What a generated predicate returns on an instance: the match's first arm
/// — the target variant path under the method's field pattern — either
/// matches, or the catch-all arm returns false.
pub open spec fn predicate_holds(m: GeneratedMethod, inst: Instance) -> bool {
    inst.variant_name@ == m.variant_name@ && pattern_admits(m.pattern, inst.data)
}

/// The data an instance was built with agrees with the shape its variant
/// was declared with: a unit variant is built from the bare path, a
/// positional variant with a positional list, a named variant with named
/// fields.
pub open spec fn data_matches_shape(s: FieldShape, d: FieldData) -> bool {
    match s {
        FieldShape::Unit => d is Unit,
        FieldShape::Unnamed => d is Positional,
        FieldShape::Named => d is Named,
    }
}

/// `inst` is a well-formed instance of `desc` currently holding variant
/// `j`: it carries that variant's name and data of that variant's declared
/// shape.
pub open spec fn instance_of_variant(desc: TypeDescription, j: int, inst: Instance) -> bool {
    &&& desc.body is Sum
    &&& 0 <= j < desc.body->Sum_0@.len()
    &&& inst.variant_name@ == desc.body->Sum_0@[j].name@
    &&& data_matches_shape(desc.body->Sum_0@[j].shape, inst.data)
}

/// The variants of a sum type are declared under pairwise distinct
/// identifiers, as the host language guarantees.
pub open spec fn distinct_variant_names(variants: Seq<Variant>) -> bool {
    forall|i: int, j: int|
        0 <= i < j < variants.len() ==> #[trigger] variants[i].name@ != #[trigger] variants[j].name@
}

/// Evaluates a generated predicate's body on a modelled instance: the
/// two-arm match — the target variant under the method's field pattern
/// yields true, the catch-all yields false.
pub fn eval_predicate(m: &GeneratedMethod, inst: &Instance) -> (r: bool)
    ensures
        r == predicate_holds(*m, *inst),
{
    if inst.variant_name == m.variant_name {
        match (&m.pattern, &inst.data) {
            (FieldPattern::Bare, FieldData::Unit) => true,
            (FieldPattern::AnyPositional, FieldData::Positional(_)) => true,
            (FieldPattern::AnyNamed, FieldData::Named(_)) => true,
            _ => false,
        }
    } else {
        false
    }
}

/// A generated predicate is a pure tag test: on a well-formed instance it
/// holds exactly when the instance's active variant bears the method's
/// variant name. Neither the data held nor the declared field shape enters
/// the outcome.
pub proof fn lemma_predicate_is_tag_test(
    desc: TypeDescription,
    out: GeneratedImpl,
    inst: Instance,
    i: int,
    j: int,
)
    requires
        generated_from(out, desc),
        distinct_variant_names(desc.body->Sum_0@),
        instance_of_variant(desc, j, inst),
        0 <= i < out.methods@.len(),
    ensures
        predicate_holds(out.methods@[i], inst) == (out.methods@[i].variant_name@
            == inst.variant_name@),
{
    let variants = desc.body->Sum_0@;
    assert(is_method_for(out.methods@[i], desc.name@, variants[i]));
    if out.methods@[i].variant_name@ == inst.variant_name@ {
        if i != j {
            assert(variants[i].name@ != variants[j].name@);
        }
        assert(i == j);
        assert(pattern_admits(pattern_of_shape(variants[j].shape), inst.data));
    }
}

/// Exhaustive coverage: on a well-formed instance holding variant `j`, the
/// method generated for `j` returns true and the method generated for every
/// other variant returns false.
pub proof fn lemma_exhaustive_coverage(
    desc: TypeDescription,
    out: GeneratedImpl,
    inst: Instance,
    i: int,
    j: int,
)
    requires
        generated_from(out, desc),
        distinct_variant_names(desc.body->Sum_0@),
        instance_of_variant(desc, j, inst),
        0 <= i < out.methods@.len(),
    ensures
        predicate_holds(out.methods@[i], inst) == (i == j),
{
    lemma_predicate_is_tag_test(desc, out, inst, i, j);
    let variants = desc.body->Sum_0@;
    if i != j {
        if i < j {
            assert(variants[i].name@ != variants[j].name@);
        } else {
            assert(variants[j].name@ != variants[i].name@);
        }
    }
}

/// Shape independence: two well-formed instances of the same variant,
/// however their carried data differs, satisfy exactly the same generated
/// predicates.
pub proof fn lemma_shape_independence(
    desc: TypeDescription,
    out: GeneratedImpl,
    a: Instance,
    b: Instance,
    i: int,
    j: int,
)
    requires
        generated_from(out, desc),
        instance_of_variant(desc, j, a),
        instance_of_variant(desc, j, b),
        0 <= i < out.methods@.len(),
    ensures
        predicate_holds(out.methods@[i], a) == predicate_holds(out.methods@[i], b),
{
    let variants = desc.body->Sum_0@;
    assert(is_method_for(out.methods@[i], desc.name@, variants[i]));
}

/// Zero-data variants: take two descriptions that agree on everything but
/// the declared shape of their variants — in particular, one may declare a
/// variant with no fields where the other declares an empty positional
/// list. On well-formed instances holding the same variant, the two
/// generated method sets return identical truth patterns.
pub proof fn lemma_zero_data_equivalence(
    desc1: TypeDescription,
    out1: GeneratedImpl,
    inst1: Instance,
    desc2: TypeDescription,
    out2: GeneratedImpl,
    inst2: Instance,
    i: int,
    j: int,
)
    requires
        generated_from(out1, desc1),
        generated_from(out2, desc2),
        distinct_variant_names(desc1.body->Sum_0@),
        desc1.body->Sum_0@.len() == desc2.body->Sum_0@.len(),
        forall|k: int|
            0 <= k < desc1.body->Sum_0@.len() ==> #[trigger] desc1.body->Sum_0@[k].name@
                == desc2.body->Sum_0@[k].name@,
        instance_of_variant(desc1, j, inst1),
        instance_of_variant(desc2, j, inst2),
        0 <= i < out1.methods@.len(),
    ensures
        predicate_holds(out1.methods@[i], inst1) == predicate_holds(out2.methods@[i], inst2),
{
    let v1 = desc1.body->Sum_0@;
    let v2 = desc2.body->Sum_0@;
    assert forall|p: int, q: int| 0 <= p < q < v2.len() implies v2[p].name@ != v2[q].name@ by {
        assert(v1[p].name@ == v2[p].name@);
        assert(v1[q].name@ == v2[q].name@);
        assert(v1[p].name@ != v1[q].name@);
    }
    assert(distinct_variant_names(v2));
    lemma_predicate_is_tag_test(desc1, out1, inst1, i, j);
    lemma_predicate_is_tag_test(desc2, out2, inst2, i, j);
    assert(is_method_for(out1.methods@[i], desc1.name@, v1[i]));
    assert(is_method_for(out2.methods@[i], desc2.name@, v2[i]));
}

} // verus!
