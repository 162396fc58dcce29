//! The generator: a single forward pass over the variants of a sum type,
//! producing one predicate method description per variant, in order, or the
//! one rejection diagnostic when the input is not a sum type.

use vstd::prelude::*;
use vstd::string::StringExecFns;
use crate::ast::{FieldShape, GenericsText, SpanTag, TypeBody, TypeDescription, Variant};
use crate::naming::{method_name, method_name_spec};

verus! {

/// The field pattern of a generated match arm: it must match a variant
/// irrespective of the data it holds, so the choice depends only on the
/// variant's field shape.
#[derive(Clone, Copy, PartialEq, Eq, Structural, Debug)]
pub enum FieldPattern {
    /// No field pattern at all: the bare variant path.
    Bare,
    /// A positional wildcard that matches any arity.
    AnyPositional,
    /// A named-field wildcard that matches any field set.
    AnyNamed,
}

/// One generated predicate method. Its body is a match over a reference to
/// the enclosing type with exactly two arms: the target variant under the
/// field pattern yields `true`, a catch-all yields `false`.
pub struct GeneratedMethod {
    /// The method's identifier: `is_` plus the normalized variant name.
    pub name: String,
    /// The enclosing type's identifier, the first segment of the arm's path.
    pub ty_name: String,
    /// The matched variant's identifier, exactly as declared.
    pub variant_name: String,
    /// The field pattern of the matching arm.
    pub pattern: FieldPattern,
    /// The originating variant's source location, carried by the generated
    /// identifier so that diagnostics point at the user's declaration.
    pub span: SpanTag,
}

/// The generator's output: an implementation block scoped to the input
/// type's identifier and generic parameter text, holding one method per
/// variant in declaration order.
pub struct GeneratedImpl {
    pub ty_name: String,
    pub generics: GenericsText,
    pub methods: Vec<GeneratedMethod>,
}

/// The one way generation fails.
#[derive(Debug)]
pub enum GenerateError {
    /// The annotated item is not a sum type; the diagnostic is attached at
    /// the given site.
    UnsupportedShape { span: SpanTag },
}

impl GenerateError {
    /// The user-visible diagnostic text.
    pub fn message(&self) -> (r: String)
        ensures
            r@ == "IsVariant is only implemented for enums"@,
    {
        String::from_str("IsVariant is only implemented for enums")
    }
}

/// The field pattern that matches a variant of the given shape whatever
/// data it currently holds.
pub open spec fn pattern_of_shape(s: FieldShape) -> FieldPattern {
    match s {
        FieldShape::Unit => FieldPattern::Bare,
        FieldShape::Unnamed => FieldPattern::AnyPositional,
        FieldShape::Named => FieldPattern::AnyNamed,
    }
}

/// `m` is exactly the method the generator owes for variant `v` of the type
/// named `ty_name`: the normalized name, the arm for `v` under the
/// shape-determined wildcard pattern, and `v`'s own provenance tag.
pub open spec fn is_method_for(m: GeneratedMethod, ty_name: Seq<char>, v: Variant) -> bool {
    &&& m.name@ == method_name_spec(v.name@)
    &&& m.ty_name@ == ty_name
    &&& m.variant_name@ == v.name@
    &&& m.pattern == pattern_of_shape(v.shape)
    &&& m.span == v.span
}

/// The whole success contract: `out` is the implementation block generation
/// owes for the sum type `desc` — same identifier, the generic parameter
/// text verbatim, and exactly one method per variant, in declaration order.
pub open spec fn generated_from(out: GeneratedImpl, desc: TypeDescription) -> bool {
    &&& desc.body is Sum
    &&& out.ty_name@ == desc.name@
    &&& out.generics.impl_params@ == desc.generics.impl_params@
    &&& out.generics.ty_args@ == desc.generics.ty_args@
    &&& out.generics.where_clause@ == desc.generics.where_clause@
    &&& out.methods@.len() == desc.body->Sum_0@.len()
    &&& forall|i: int|
        0 <= i < out.methods@.len() ==> is_method_for(
            #[trigger] out.methods@[i],
            desc.name@,
            desc.body->Sum_0@[i],
        )
}

/// Generation is idempotent: any two outputs admitted by the success
/// contract for the same description agree method for method — there are
/// no hidden counters and no non-deterministic naming.
pub proof fn lemma_generation_deterministic(
    desc: TypeDescription,
    out1: GeneratedImpl,
    out2: GeneratedImpl,
)
    requires
        generated_from(out1, desc),
        generated_from(out2, desc),
    ensures
        out1.ty_name@ == out2.ty_name@,
        out1.methods@.len() == out2.methods@.len(),
        forall|i: int|
            0 <= i < out1.methods@.len() ==> {
                &&& (#[trigger] out1.methods@[i]).name@ == out2.methods@[i].name@
                &&& out1.methods@[i].variant_name@ == out2.methods@[i].variant_name@
                &&& out1.methods@[i].pattern == out2.methods@[i].pattern
                &&& out1.methods@[i].span == out2.methods@[i].span
            },
{
}

/// Picks the match-arm field pattern for a variant's declared shape.
pub fn pattern_for_shape(s: FieldShape) -> (r: FieldPattern)
    ensures
        r == pattern_of_shape(s),
{
    match s {
        FieldShape::Unit => FieldPattern::Bare,
        FieldShape::Unnamed => FieldPattern::AnyPositional,
        FieldShape::Named => FieldPattern::AnyNamed,
    }
}

/// Generates the implementation block for a sum type: one predicate method
/// per variant, in order, or the rejection diagnostic when the input is not
/// a sum type. All-or-nothing: an error carries no methods at all.
pub fn generate(desc: &TypeDescription) -> (r: Result<GeneratedImpl, GenerateError>)
    ensures
        match r {
            Ok(out) => generated_from(out, *desc),
            Err(e) => {
                &&& !(desc.body is Sum)
                &&& e == (GenerateError::UnsupportedShape { span: desc.span })
            },
        },
{
    match &desc.body {
        TypeBody::Sum(variants) => {
            let mut methods: Vec<GeneratedMethod> = Vec::new();
            let mut i: usize = 0;
            while i < variants.len()
                invariant
                    i <= variants.len(),
                    methods@.len() == i,
                    forall|k: int|
                        0 <= k < i ==> is_method_for(
                            #[trigger] methods@[k],
                            desc.name@,
                            variants@[k],
                        ),
                decreases variants.len() - i,
            {
                let v = &variants[i];
                let m = GeneratedMethod {
                    name: method_name(v.name.as_str()),
                    ty_name: desc.name.clone(),
                    variant_name: v.name.clone(),
                    pattern: pattern_for_shape(v.shape),
                    span: v.span,
                };
                methods.push(m);
                i = i + 1;
            }
            Ok(GeneratedImpl {
                ty_name: desc.name.clone(),
                generics: GenericsText {
                    impl_params: desc.generics.impl_params.clone(),
                    ty_args: desc.generics.ty_args.clone(),
                    where_clause: desc.generics.where_clause.clone(),
                },
                methods,
            })
        },
        TypeBody::Product => Err(GenerateError::UnsupportedShape { span: desc.span }),
        TypeBody::Untagged => Err(GenerateError::UnsupportedShape { span: desc.span }),
    }
}

} // verus!
