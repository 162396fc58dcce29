use is_variant::ast::{FieldShape, GenericsText, SpanTag, TypeBody, TypeDescription, Variant};
use is_variant::generate::{generate, FieldPattern, GenerateError, GeneratedImpl};
use is_variant::semantics::{eval_predicate, FieldData, Instance};

fn variant(name: &str, shape: FieldShape, id: usize) -> Variant {
    Variant { name: String::from(name), shape, span: SpanTag { id } }
}

fn no_generics() -> GenericsText {
    GenericsText {
        impl_params: String::new(),
        ty_args: String::new(),
        where_clause: String::new(),
    }
}

/// The running example: a sum type with a unit variant, a zero-field
/// positional variant, a two-field positional variant, a named-field
/// variant, and a multi-word unit variant.
fn test_enum() -> TypeDescription {
    TypeDescription {
        name: String::from("TestEnum"),
        generics: no_generics(),
        body: TypeBody::Sum(vec![
            variant("A", FieldShape::Unit, 1),
            variant("B", FieldShape::Unnamed, 2),
            variant("C", FieldShape::Unnamed, 3),
            variant("D", FieldShape::Named, 4),
            variant("VariantTest", FieldShape::Unit, 5),
        ]),
        span: SpanTag { id: 0 },
    }
}

fn instance(name: &str, data: FieldData) -> Instance {
    Instance { variant_name: String::from(name), data }
}

fn truth_pattern(out: &GeneratedImpl, inst: &Instance) -> Vec<bool> {
    out.methods.iter().map(|m| eval_predicate(m, inst)).collect()
}

#[test]
fn five_methods_in_order() {
    let out = generate(&test_enum()).unwrap();
    let names: Vec<&str> = out.methods.iter().map(|m| m.name.as_str()).collect();
    assert_eq!(names, vec!["is_a", "is_b", "is_c", "is_d", "is_variant_test"]);
}

#[test]
fn methods_carry_variant_identity() {
    let out = generate(&test_enum()).unwrap();
    assert_eq!(out.ty_name, "TestEnum");
    let variants: Vec<&str> = out.methods.iter().map(|m| m.variant_name.as_str()).collect();
    assert_eq!(variants, vec!["A", "B", "C", "D", "VariantTest"]);
    for m in &out.methods {
        assert_eq!(m.ty_name, "TestEnum");
    }
}

#[test]
fn methods_carry_shape_patterns() {
    let out = generate(&test_enum()).unwrap();
    let patterns: Vec<FieldPattern> = out.methods.iter().map(|m| m.pattern).collect();
    assert_eq!(
        patterns,
        vec![
            FieldPattern::Bare,
            FieldPattern::AnyPositional,
            FieldPattern::AnyPositional,
            FieldPattern::AnyNamed,
            FieldPattern::Bare,
        ]
    );
}

#[test]
fn methods_carry_original_spans() {
    let out = generate(&test_enum()).unwrap();
    let ids: Vec<usize> = out.methods.iter().map(|m| m.span.id).collect();
    assert_eq!(ids, vec![1, 2, 3, 4, 5]);
}

#[test]
fn c_instance_satisfies_only_is_c() {
    let out = generate(&test_enum()).unwrap();
    let c = instance("C", FieldData::Positional(vec![1, 2]));
    assert_eq!(truth_pattern(&out, &c), vec![false, false, true, false, false]);
}

#[test]
fn variant_test_instance_satisfies_only_its_method() {
    let out = generate(&test_enum()).unwrap();
    let vt = instance("VariantTest", FieldData::Unit);
    assert_eq!(truth_pattern(&out, &vt), vec![false, false, false, false, true]);
}

#[test]
fn every_variant_covered_once() {
    let desc = test_enum();
    let out = generate(&desc).unwrap();
    let instances = vec![
        instance("A", FieldData::Unit),
        instance("B", FieldData::Positional(vec![])),
        instance("C", FieldData::Positional(vec![7, 9])),
        instance("D", FieldData::Named(vec![(String::from("age"), 30)])),
        instance("VariantTest", FieldData::Unit),
    ];
    for (j, inst) in instances.iter().enumerate() {
        for (i, m) in out.methods.iter().enumerate() {
            assert_eq!(eval_predicate(m, inst), i == j);
        }
    }
}

#[test]
fn data_values_never_matter() {
    let out = generate(&test_enum()).unwrap();
    let c1 = instance("C", FieldData::Positional(vec![1, 2]));
    let c2 = instance("C", FieldData::Positional(vec![9, 0, 42]));
    let c3 = instance("C", FieldData::Positional(vec![]));
    assert_eq!(truth_pattern(&out, &c1), truth_pattern(&out, &c2));
    assert_eq!(truth_pattern(&out, &c1), truth_pattern(&out, &c3));
    let d1 = instance("D", FieldData::Named(vec![(String::from("name"), 1)]));
    let d2 = instance("D", FieldData::Named(vec![(String::from("age"), 30)]));
    assert_eq!(truth_pattern(&out, &d1), truth_pattern(&out, &d2));
}

#[test]
fn unit_and_empty_positional_agree() {
    let mut with_unit = test_enum();
    let mut with_empty_list = test_enum();
    if let TypeBody::Sum(ref mut vs) = with_unit.body {
        vs[1].shape = FieldShape::Unit;
    }
    if let TypeBody::Sum(ref mut vs) = with_empty_list.body {
        vs[1].shape = FieldShape::Unnamed;
    }
    let out_unit = generate(&with_unit).unwrap();
    let out_list = generate(&with_empty_list).unwrap();
    let b_unit = instance("B", FieldData::Unit);
    let b_list = instance("B", FieldData::Positional(vec![]));
    let expected = vec![false, true, false, false, false];
    assert_eq!(truth_pattern(&out_unit, &b_unit), expected);
    assert_eq!(truth_pattern(&out_list, &b_list), expected);
    let a = instance("A", FieldData::Unit);
    assert_eq!(truth_pattern(&out_unit, &a), truth_pattern(&out_list, &a));
}

#[test]
fn product_type_rejected() {
    let desc = TypeDescription {
        name: String::from("NotAnEnum"),
        generics: no_generics(),
        body: TypeBody::Product,
        span: SpanTag { id: 11 },
    };
    match generate(&desc) {
        Ok(_) => panic!("a product type must be rejected"),
        Err(e) => {
            let GenerateError::UnsupportedShape { span } = e;
            assert_eq!(span.id, 11);
            assert_eq!(e.message(), "IsVariant is only implemented for enums");
        }
    }
}

#[test]
fn untagged_type_rejected() {
    let desc = TypeDescription {
        name: String::from("RawOverlay"),
        generics: no_generics(),
        body: TypeBody::Untagged,
        span: SpanTag { id: 23 },
    };
    match generate(&desc) {
        Ok(_) => panic!("an untagged type must be rejected"),
        Err(e) => {
            let GenerateError::UnsupportedShape { span } = e;
            assert_eq!(span.id, 23);
        }
    }
}

#[test]
fn zero_variants_give_empty_impl() {
    let desc = TypeDescription {
        name: String::from("Never"),
        generics: no_generics(),
        body: TypeBody::Sum(vec![]),
        span: SpanTag { id: 0 },
    };
    let out = generate(&desc).unwrap();
    assert_eq!(out.methods.len(), 0);
    assert_eq!(out.ty_name, "Never");
}

#[test]
fn generics_passed_through_verbatim() {
    let desc = TypeDescription {
        name: String::from("Either"),
        generics: GenericsText {
            impl_params: String::from("<L: Clone, R>"),
            ty_args: String::from("<L, R>"),
            where_clause: String::from("where R: Default"),
        },
        body: TypeBody::Sum(vec![
            variant("Left", FieldShape::Unnamed, 1),
            variant("Right", FieldShape::Unnamed, 2),
        ]),
        span: SpanTag { id: 0 },
    };
    let out = generate(&desc).unwrap();
    assert_eq!(out.generics.impl_params, "<L: Clone, R>");
    assert_eq!(out.generics.ty_args, "<L, R>");
    assert_eq!(out.generics.where_clause, "where R: Default");
}

#[test]
fn generation_is_repeatable() {
    let a = generate(&test_enum()).unwrap();
    let b = generate(&test_enum()).unwrap();
    assert_eq!(a.methods.len(), b.methods.len());
    for (ma, mb) in a.methods.iter().zip(b.methods.iter()) {
        assert_eq!(ma.name, mb.name);
        assert_eq!(ma.variant_name, mb.variant_name);
        assert_eq!(ma.pattern, mb.pattern);
        assert_eq!(ma.span, mb.span);
    }
}
