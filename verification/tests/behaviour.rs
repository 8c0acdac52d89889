//! The parts of the transformation one by one: the search for the variant,
//! its classification, the check for an existing conversion, and the text.

use from_impl_assist::assist::generate_from_impl_for_enum;
use from_impl_assist::classify::{
    classify, classify_variant, find_enclosing_variant, ClassifiedVariant,
};
use from_impl_assist::semantics::{
    existing_from_impl, ConversionTrait, SemanticContext, SemanticEnum, SemanticVariant,
    TraitImpl,
};
use from_impl_assist::synthesize::{
    impl_body, impl_header, instantiation_names, synthesize, SynthesizedEdit,
};
use from_impl_assist::text::TextRange;
use from_impl_assist::tree::{
    Document, EnumDecl, GenericParam, GenericParamList, RecordField, Shape, TupleField, Variant,
};

fn range(start: u32, end: u32) -> TextRange {
    TextRange { start, end }
}

fn some(text: &str) -> Option<String> {
    Some(text.to_string())
}

fn tuple_of(types: &[&str]) -> Shape {
    Shape::Tuple(types.iter().map(|ty| TupleField { ty: some(ty) }).collect())
}

fn record_of(fields: &[(&str, &str)]) -> Shape {
    Shape::Record(
        fields.iter().map(|(name, ty)| RecordField { name: some(name), ty: some(ty) }).collect(),
    )
}

fn named_variant(name: &str, shape: Shape, start: u32, end: u32) -> Variant {
    Variant { name: some(name), shape, range: range(start, end) }
}

fn named_enum(name: &str, variants: Vec<Variant>, start: u32, end: u32) -> EnumDecl {
    EnumDecl { name: some(name), generics: None, variants, range: range(start, end) }
}

/// `enum E { Int(i64), Pair(u8, u8), Text { s: String }, Unit }` with the spans
/// that this text gives.
fn sample_document() -> Document {
    Document {
        enums: vec![named_enum(
            "E",
            vec![
                named_variant("Int", tuple_of(&["i64"]), 9, 17),
                named_variant("Pair", tuple_of(&["u8", "u8"]), 19, 31),
                named_variant("Text", record_of(&[("s", "String")]), 33, 51),
                named_variant("Unit", Shape::Unit, 53, 57),
            ],
            0,
            59,
        )],
    }
}

fn empty_context() -> SemanticContext {
    SemanticContext { variants: Vec::new(), conversion_traits: Vec::new(), impls: Vec::new() }
}

const E_TYPE: u64 = 7;
const UNIT: u64 = 3;
const FROM: u64 = 50;
const I64: u64 = 64;
const STRING: u64 = 65;

/// Every variant of the sample resolves, and its unit sees the conversion
/// trait.
fn sample_context() -> SemanticContext {
    let parent_enum = SemanticEnum { ty: E_TYPE, unit: UNIT };
    SemanticContext {
        variants: vec![
            SemanticVariant { node: range(9, 17), parent_enum, field_types: vec![I64] },
            SemanticVariant { node: range(19, 31), parent_enum, field_types: vec![8, 8] },
            SemanticVariant { node: range(33, 51), parent_enum, field_types: vec![STRING] },
            SemanticVariant { node: range(53, 57), parent_enum, field_types: vec![] },
        ],
        conversion_traits: vec![ConversionTrait { unit: UNIT, trait_def: FROM }],
        impls: Vec::new(),
    }
}

fn classified(name: &str, field_name: Option<&str>, ty: &str) -> ClassifiedVariant {
    ClassifiedVariant {
        variant_name: name.to_string(),
        enum_name: "E".to_string(),
        generics: None,
        field_name: field_name.map(|n| n.to_string()),
        field_type: ty.to_string(),
        range: range(9, 17),
        enum_range: range(0, 59),
    }
}

#[test]
fn range_covers_both_of_its_ends() {
    let r = range(4, 9);
    assert!(!r.contains_inclusive(3));
    assert!(r.contains_inclusive(4));
    assert!(r.contains_inclusive(6));
    assert!(r.contains_inclusive(9));
    assert!(!r.contains_inclusive(10));
    assert!(range(5, 5).contains_inclusive(5));
    assert!(!range(6, 5).contains_inclusive(5));
    assert!(!range(6, 5).contains_inclusive(6));
}

#[test]
fn cursor_at_either_end_of_a_variant_finds_it() {
    let document = sample_document();
    assert_eq!(find_enclosing_variant(&document, 9), Some((0, 0)));
    assert_eq!(find_enclosing_variant(&document, 13), Some((0, 0)));
    assert_eq!(find_enclosing_variant(&document, 17), Some((0, 0)));
    assert_eq!(find_enclosing_variant(&document, 19), Some((0, 1)));
    assert_eq!(find_enclosing_variant(&document, 57), Some((0, 3)));
}

#[test]
fn cursor_outside_every_variant_finds_none() {
    let document = sample_document();
    assert_eq!(find_enclosing_variant(&document, 0), None);
    assert_eq!(find_enclosing_variant(&document, 8), None);
    assert_eq!(find_enclosing_variant(&document, 18), None);
    assert_eq!(find_enclosing_variant(&document, 58), None);
    assert_eq!(find_enclosing_variant(&document, u32::MAX), None);
    assert_eq!(find_enclosing_variant(&Document { enums: Vec::new() }, 0), None);
    assert_eq!(classify(&document, 18), None);
    assert_eq!(generate_from_impl_for_enum(&document, 18, &empty_context()), None);
}

#[test]
fn smallest_enclosing_variant_wins() {
    // An enum declared inside the value of a variant of another enum.
    let outer = named_enum("Outer", vec![named_variant("Big", Shape::Unit, 13, 90)], 0, 92);
    let inner =
        named_enum("Inner", vec![named_variant("Small", tuple_of(&["u8"]), 40, 49)], 27, 51);
    let document = Document { enums: vec![outer, inner] };
    assert_eq!(find_enclosing_variant(&document, 45), Some((1, 0)));
    assert_eq!(find_enclosing_variant(&document, 20), Some((0, 0)));
    assert_eq!(find_enclosing_variant(&document, 60), Some((0, 0)));
    let found = classify(&document, 45).expect("the inner variant has one field");
    assert_eq!(found.variant_name, "Small");
    assert_eq!(found.enum_name, "Inner");
    assert_eq!(found.enum_range, range(27, 51));
    assert_eq!(classify(&document, 20), None);

    // The same holds whichever of the two enums the document lists first.
    let outer = named_enum("Outer", vec![named_variant("Big", Shape::Unit, 13, 90)], 0, 92);
    let inner =
        named_enum("Inner", vec![named_variant("Small", tuple_of(&["u8"]), 40, 49)], 27, 51);
    let document = Document { enums: vec![inner, outer] };
    assert_eq!(find_enclosing_variant(&document, 45), Some((0, 0)));
    assert_eq!(find_enclosing_variant(&document, 60), Some((1, 0)));
}

#[test]
fn of_equally_small_variants_the_first_wins() {
    let document = Document {
        enums: vec![
            named_enum(
                "A",
                vec![
                    named_variant("Wide", Shape::Unit, 0, 20),
                    named_variant("Left", Shape::Unit, 5, 10),
                    named_variant("Right", Shape::Unit, 10, 15),
                ],
                0,
                30,
            ),
            named_enum("B", vec![named_variant("Again", Shape::Unit, 5, 10)], 0, 30),
        ],
    };
    assert_eq!(find_enclosing_variant(&document, 10), Some((0, 1)));
    assert_eq!(find_enclosing_variant(&document, 7), Some((0, 1)));
    assert_eq!(find_enclosing_variant(&document, 12), Some((0, 2)));
    assert_eq!(find_enclosing_variant(&document, 2), Some((0, 0)));
}

#[test]
fn classification_carries_names_type_and_spans() {
    let document = sample_document();
    let int = classify(&document, 10).expect("one unnamed field");
    assert_eq!(
        int,
        ClassifiedVariant {
            variant_name: "Int".to_string(),
            enum_name: "E".to_string(),
            generics: None,
            field_name: None,
            field_type: "i64".to_string(),
            range: range(9, 17),
            enum_range: range(0, 59),
        }
    );
    let text = classify(&document, 40).expect("one named field");
    assert_eq!(text.variant_name, "Text");
    assert_eq!(text.field_name, some("s"));
    assert_eq!(text.field_type, "String");
    assert_eq!(text.range, range(33, 51));
    assert_eq!(text.enum_range, range(0, 59));
}

#[test]
fn no_field_or_several_fields_are_rejected() {
    let document = sample_document();
    assert_eq!(classify(&document, 20), None);
    assert_eq!(classify(&document, 55), None);
    let sema = empty_context();
    assert_eq!(generate_from_impl_for_enum(&document, 20, &sema), None);
    assert_eq!(generate_from_impl_for_enum(&document, 55, &sema), None);

    let decl = named_enum("E", Vec::new(), 0, 59);
    for shape in [
        Shape::Unit,
        tuple_of(&[]),
        tuple_of(&["u8", "u8"]),
        tuple_of(&["u8", "u8", "u8"]),
        record_of(&[]),
        record_of(&[("a", "u8"), ("b", "u8")]),
    ] {
        let variant = named_variant("V", shape, 9, 17);
        assert_eq!(classify_variant(&decl, &variant), None);
    }
}

#[test]
fn missing_names_and_types_are_rejected() {
    let decl = named_enum("E", Vec::new(), 0, 59);
    let nameless = EnumDecl { name: None, generics: None, variants: Vec::new(), range: range(0, 59) };
    let good = named_variant("V", tuple_of(&["u8"]), 9, 17);
    assert!(classify_variant(&decl, &good).is_some());
    assert_eq!(classify_variant(&nameless, &good), None);

    let unnamed = Variant { name: None, shape: tuple_of(&["u8"]), range: range(9, 17) };
    assert_eq!(classify_variant(&decl, &unnamed), None);

    let untyped = named_variant("V", Shape::Tuple(vec![TupleField { ty: None }]), 9, 17);
    assert_eq!(classify_variant(&decl, &untyped), None);

    let record_untyped = named_variant(
        "V",
        Shape::Record(vec![RecordField { name: some("x"), ty: None }]),
        9,
        17,
    );
    assert_eq!(classify_variant(&decl, &record_untyped), None);

    let record_unnamed = named_variant(
        "V",
        Shape::Record(vec![RecordField { name: None, ty: some("u8") }]),
        9,
        17,
    );
    assert_eq!(classify_variant(&decl, &record_unnamed), None);
}

#[test]
fn classification_copies_the_generic_parameter_list() {
    let generics = GenericParamList {
        text: "<'a, T: Clone>".to_string(),
        params: vec![
            GenericParam::Lifetime { name: some("'a") },
            GenericParam::Type { name: some("T"), bounds: some("Clone") },
        ],
    };
    let decl = EnumDecl {
        name: some("G"),
        generics: Some(generics.clone()),
        variants: Vec::new(),
        range: range(0, 40),
    };
    let variant = named_variant("V", tuple_of(&["&'a T"]), 20, 29);
    let found = classify_variant(&decl, &variant).expect("one unnamed field");
    assert_eq!(found.generics, Some(generics));
}

#[test]
fn unnamed_field_gives_parameter_v_and_a_call() {
    let body = impl_body(&classified("Int", None, "i64"));
    assert_eq!(body, " {\n    fn from(v: i64) -> Self {\n        Self::Int(v)\n    }\n}");
    let edit = synthesize(&classified("Int", None, "i64"));
    assert_eq!(
        edit,
        SynthesizedEdit {
            offset: 59,
            text: "\n\nimpl From<i64> for E {\n    fn from(v: i64) -> Self {\n        Self::Int(v)\n    }\n}"
                .to_string(),
        }
    );
}

#[test]
fn named_field_gives_parameter_of_that_name_and_shorthand() {
    let body = impl_body(&classified("Text", Some("s"), "String"));
    assert_eq!(body, " {\n    fn from(s: String) -> Self {\n        Self::Text { s }\n    }\n}");
    let edit = synthesize(&classified("Text", Some("s"), "String"));
    assert_eq!(edit.offset, 59);
    assert_eq!(
        edit.text,
        "\n\nimpl From<String> for E {\n    fn from(s: String) -> Self {\n        Self::Text { s }\n    }\n}"
    );
}

#[test]
fn header_without_generics_names_the_bare_enum() {
    assert_eq!(impl_header(&classified("Int", None, "i64")), "\n\nimpl From<i64> for E");
}

#[test]
fn header_with_generics_keeps_the_list_and_names_lifetimes_first() {
    let list = GenericParamList {
        text: "<T, 'a, U: Clone + 'a, 'b>".to_string(),
        params: vec![
            GenericParam::Type { name: some("T"), bounds: None },
            GenericParam::Lifetime { name: some("'a") },
            GenericParam::Type { name: some("U"), bounds: some("Clone + 'a") },
            GenericParam::Lifetime { name: some("'b") },
        ],
    };
    assert_eq!(instantiation_names(&list), vec!["'a", "'b", "T", "U"]);
    let mut variant = classified("Int", None, "&'a T");
    variant.generics = Some(list);
    assert_eq!(
        impl_header(&variant),
        "\n\nimpl<T, 'a, U: Clone + 'a, 'b> From<&'a T> for E<'a, 'b, T, U>"
    );
}

#[test]
fn interleaving_of_parameters_does_not_change_the_names() {
    let a = GenericParamList {
        text: "<'a, T, 'b, U>".to_string(),
        params: vec![
            GenericParam::Lifetime { name: some("'a") },
            GenericParam::Type { name: some("T"), bounds: None },
            GenericParam::Lifetime { name: some("'b") },
            GenericParam::Type { name: some("U"), bounds: None },
        ],
    };
    let b = GenericParamList {
        text: "<T, U, 'a, 'b>".to_string(),
        params: vec![
            GenericParam::Type { name: some("T"), bounds: some("Copy") },
            GenericParam::Type { name: some("U"), bounds: None },
            GenericParam::Lifetime { name: some("'a") },
            GenericParam::Lifetime { name: some("'b") },
        ],
    };
    assert_eq!(instantiation_names(&a), instantiation_names(&b));
    assert_eq!(instantiation_names(&a), vec!["'a", "'b", "T", "U"]);
}

#[test]
fn parameters_without_a_name_give_no_argument() {
    let list = GenericParamList {
        text: "<'a, , T>".to_string(),
        params: vec![
            GenericParam::Lifetime { name: None },
            GenericParam::Type { name: None, bounds: some("Clone") },
            GenericParam::Type { name: some("T"), bounds: None },
        ],
    };
    assert_eq!(instantiation_names(&list), vec!["T"]);
}

#[test]
fn single_and_empty_parameter_lists() {
    let mut variant = classified("Int", None, "T");
    variant.generics = Some(GenericParamList {
        text: "<T>".to_string(),
        params: vec![GenericParam::Type { name: some("T"), bounds: None }],
    });
    assert_eq!(impl_header(&variant), "\n\nimpl<T> From<T> for E<T>");

    variant.generics = Some(GenericParamList { text: "<>".to_string(), params: Vec::new() });
    assert_eq!(impl_header(&variant), "\n\nimpl<> From<T> for E<>");
    assert_eq!(
        instantiation_names(&GenericParamList { text: "<>".to_string(), params: Vec::new() }),
        Vec::<String>::new()
    );
}

#[test]
fn resolving_goes_by_the_first_entry() {
    let mut sema = sample_context();
    let other_enum = SemanticEnum { ty: 99, unit: 98 };
    sema.variants.push(SemanticVariant {
        node: range(9, 17),
        parent_enum: other_enum,
        field_types: vec![1],
    });
    sema.conversion_traits.push(ConversionTrait { unit: UNIT, trait_def: 51 });
    let found = sema.resolve_variant(range(9, 17)).expect("the variant resolves");
    assert_eq!(found.parent_enum, SemanticEnum { ty: E_TYPE, unit: UNIT });
    assert_eq!(found.field_types, vec![I64]);
    assert_eq!(sema.resolve_variant(range(9, 16)), None);
    assert_eq!(sema.resolve_variant(range(10, 17)), None);
    assert_eq!(sema.resolve_conversion_trait(UNIT), Some(FROM));
    assert_eq!(sema.resolve_conversion_trait(98), None);
    assert_eq!(empty_context().resolve_variant(range(9, 17)), None);
    assert_eq!(empty_context().resolve_conversion_trait(UNIT), None);
}

#[test]
fn implements_asks_for_the_exact_type_arguments() {
    let mut sema = sample_context();
    sema.impls.push(TraitImpl { self_type: E_TYPE, trait_def: FROM, type_args: vec![I64] });
    assert!(sema.implements(E_TYPE, FROM, &vec![I64]));
    assert!(!sema.implements(E_TYPE, FROM, &vec![STRING]));
    assert!(!sema.implements(E_TYPE, FROM, &vec![]));
    assert!(!sema.implements(E_TYPE, FROM, &vec![I64, I64]));
    assert!(!sema.implements(E_TYPE, 51, &vec![I64]));
    assert!(!sema.implements(8, FROM, &vec![I64]));
    assert!(!empty_context().implements(E_TYPE, FROM, &vec![I64]));
}

#[test]
fn existing_conversion_is_found_at_any_place() {
    let document = sample_document();
    let int = classify(&document, 10).expect("one unnamed field");
    let mut sema = sample_context();
    assert!(!existing_from_impl(&sema, &int));
    sema.impls.push(TraitImpl { self_type: E_TYPE, trait_def: 51, type_args: vec![I64] });
    sema.impls.push(TraitImpl { self_type: E_TYPE, trait_def: FROM, type_args: vec![STRING] });
    assert!(!existing_from_impl(&sema, &int));
    sema.impls.push(TraitImpl { self_type: E_TYPE, trait_def: FROM, type_args: vec![I64] });
    assert!(existing_from_impl(&sema, &int));
    assert_eq!(generate_from_impl_for_enum(&document, 10, &sema), None);
}

#[test]
fn conversion_for_one_variant_does_not_block_another() {
    let document = sample_document();
    let mut sema = sample_context();
    sema.impls.push(TraitImpl { self_type: E_TYPE, trait_def: FROM, type_args: vec![I64] });
    assert_eq!(generate_from_impl_for_enum(&document, 10, &sema), None);
    let text = generate_from_impl_for_enum(&document, 40, &sema)
        .expect("no conversion from String exists");
    assert_eq!(text.applicable_range, range(33, 51));
    assert_eq!(text.insertion_offset, 59);
    assert_eq!(
        text.inserted_text,
        "\n\nimpl From<String> for E {\n    fn from(s: String) -> Self {\n        Self::Text { s }\n    }\n}"
    );
}

#[test]
fn what_does_not_resolve_does_not_block() {
    let document = sample_document();
    let int = classify(&document, 10).expect("one unnamed field");
    let conversion = TraitImpl { self_type: E_TYPE, trait_def: FROM, type_args: vec![I64] };

    // The variant does not resolve.
    let mut sema = sample_context();
    sema.variants.clear();
    sema.impls.push(conversion.clone());
    assert!(!existing_from_impl(&sema, &int));
    assert!(generate_from_impl_for_enum(&document, 10, &sema).is_some());

    // The unit does not see the conversion trait.
    let mut sema = sample_context();
    sema.conversion_traits.clear();
    sema.impls.push(conversion.clone());
    assert!(!existing_from_impl(&sema, &int));
    assert!(generate_from_impl_for_enum(&document, 10, &sema).is_some());

    // The analysis knows no field of the variant.
    let mut sema = sample_context();
    sema.variants[0].field_types.clear();
    sema.impls.push(conversion);
    assert!(!existing_from_impl(&sema, &int));
    assert!(generate_from_impl_for_enum(&document, 10, &sema).is_some());
}

#[test]
fn same_input_gives_the_same_proposal() {
    let document = sample_document();
    let sema = sample_context();
    for offset in [0, 9, 10, 17, 18, 25, 40, 55, 59] {
        let first = generate_from_impl_for_enum(&document, offset, &sema);
        let second = generate_from_impl_for_enum(&document, offset, &sema);
        assert_eq!(first, second);
    }
    let first = generate_from_impl_for_enum(&document, 10, &sema).expect("applies");
    assert_eq!(first.id, "generate_from_impl_for_enum");
    assert_eq!(first.label, "Generate `From` impl for this enum variant");
    assert_eq!(first.applicable_range, range(9, 17));
    assert_eq!(first.insertion_offset, 59);
    assert_eq!(
        first.inserted_text,
        "\n\nimpl From<i64> for E {\n    fn from(v: i64) -> Self {\n        Self::Int(v)\n    }\n}"
    );
}
