//! Assembling the text of the new `impl` block.

use crate::classify::{ClassifiedVariant, ClassifiedVariantView};
use crate::text::{format_separated, joined};
use crate::tree::{GenericParam, GenericParamList, GenericParamView};
use vstd::prelude::*;

verus! {

/// The one change that the transformation makes to a source text: `text` is
/// inserted at the byte offset `offset`.
#[derive(Clone, Debug, PartialEq, Eq)]
pub struct SynthesizedEdit {
    pub offset: u32,
    pub text: String,
}

/// What a [`SynthesizedEdit`] holds, as mathematical values.
pub struct SynthesizedEditView {
    pub offset: u32,
    pub text: Seq<char>,
}

impl View for SynthesizedEdit {
    type V = SynthesizedEditView;

    open spec fn view(&self) -> SynthesizedEditView {
        SynthesizedEditView { offset: self.offset, text: self.text@ }
    }
}

/// The names of the lifetime parameters among `params`, in their order.
/// A parameter without a name gives none.
pub open spec fn lifetime_names(params: Seq<GenericParamView>) -> Seq<Seq<char>>
    decreases params.len(),
{
    if params.len() == 0 {
        Seq::empty()
    } else {
        let before = lifetime_names(params.drop_last());
        match params.last() {
            GenericParamView::Lifetime { name: Some(name) } => before.push(name),
            _ => before,
        }
    }
}

/// The names of the type parameters among `params`, in their order, without
/// their bounds. A parameter without a name gives none.
pub open spec fn type_names(params: Seq<GenericParamView>) -> Seq<Seq<char>>
    decreases params.len(),
{
    if params.len() == 0 {
        Seq::empty()
    } else {
        let before = type_names(params.drop_last());
        match params.last() {
            GenericParamView::Type { name: Some(name), .. } => before.push(name),
            _ => before,
        }
    }
}

/// The arguments that name a generic enum with the parameters `params` in the
/// header of an `impl` block: the names of all lifetime parameters, then the
/// names of all type parameters.
pub open spec fn instantiation_names_spec(params: Seq<GenericParamView>) -> Seq<Seq<char>> {
    lifetime_names(params) + type_names(params)
}

/// The line that opens the `impl` block, after a blank line: `impl`, the
/// enum's generic parameter list as the source has it, the conversion trait
/// with the field's type, and the enum with its parameters' names.
pub open spec fn impl_header_spec(variant: ClassifiedVariantView) -> Seq<char> {
    match variant.generics {
        Some(list) => "\n\nimpl"@ + list.text + " From<"@ + variant.field_type + "> for "@
            + variant.enum_name + "<"@ + joined(instantiation_names_spec(list.params), ", "@)
            + ">"@,
        None => "\n\nimpl"@ + " From<"@ + variant.field_type + "> for "@ + variant.enum_name,
    }
}

/// The body of an `impl` block that converts from an unnamed field of type
/// `ty`: the parameter of `from` is `v`, and the variant is built by a call.
pub open spec fn positional_body(ty: Seq<char>, variant_name: Seq<char>) -> Seq<char> {
    " {\n    fn from(v: "@ + ty + ") -> Self {\n        Self::"@ + variant_name
        + "(v)\n    }\n}"@
}

/// The body of an `impl` block that converts from the field `field` of type
/// `ty`: the parameter of `from` has the field's name, and the variant is
/// built with that name alone between braces.
pub open spec fn shorthand_body(field: Seq<char>, ty: Seq<char>, variant_name: Seq<char>) -> Seq<
    char,
> {
    " {\n    fn from("@ + field + ": "@ + ty + ") -> Self {\n        Self::"@ + variant_name
        + " { "@ + field + " }\n    }\n}"@
}

/// The body of the `impl` block, which holds the function `from`.
pub open spec fn impl_body_spec(variant: ClassifiedVariantView) -> Seq<char> {
    match variant.field_name {
        Some(name) => shorthand_body(name, variant.field_type, variant.variant_name),
        None => positional_body(variant.field_type, variant.variant_name),
    }
}

/// The edit that adds the conversion for `variant`: the `impl` block, put
/// right behind the enum declaration.
pub open spec fn synthesize_spec(variant: ClassifiedVariantView) -> SynthesizedEditView {
    SynthesizedEditView {
        offset: variant.enum_range.end,
        text: impl_header_spec(variant) + impl_body_spec(variant),
    }
}

/// The lifetime names of a list in two parts are those of the first part
/// followed by those of the second, and so are the type names.
pub proof fn lemma_names_distribute(first: Seq<GenericParamView>, second: Seq<GenericParamView>)
    ensures
        lifetime_names(first + second) == lifetime_names(first) + lifetime_names(second),
        type_names(first + second) == type_names(first) + type_names(second),
    decreases second.len(),
{
    if second.len() == 0 {
        assert(first + second =~= first);
        assert(lifetime_names(first) + lifetime_names(second) =~= lifetime_names(first));
        assert(type_names(first) + type_names(second) =~= type_names(first));
    } else {
        assert((first + second).drop_last() =~= first + second.drop_last());
        assert((first + second).last() == second.last());
        lemma_names_distribute(first, second.drop_last());
        assert(lifetime_names(first + second) =~= lifetime_names(first) + lifetime_names(second));
        assert(type_names(first + second) =~= type_names(first) + type_names(second));
    }
}

/// A lifetime parameter adds nothing to the type names of a list, and a type
/// parameter adds nothing to its lifetime names.
proof fn lemma_names_of_one(param: GenericParamView)
    ensures
        param is Lifetime ==> type_names(seq![param]) == Seq::<Seq<char>>::empty(),
        param is Type ==> lifetime_names(seq![param]) == Seq::<Seq<char>>::empty(),
{
    reveal_with_fuel(lifetime_names, 2);
    reveal_with_fuel(type_names, 2);
    assert(seq![param].drop_last() =~= Seq::<GenericParamView>::empty());
    assert(seq![param].last() == param);
}

/// The arguments that name a generic enum do not depend on how lifetime and
/// type parameters are interleaved in its declaration: exchanging a lifetime
/// parameter with a type parameter next to it changes nothing.
pub proof fn lemma_names_ignore_interleaving(
    before: Seq<GenericParamView>,
    lifetime: GenericParamView,
    ty: GenericParamView,
    after: Seq<GenericParamView>,
)
    requires
        lifetime is Lifetime,
        ty is Type,
    ensures
        instantiation_names_spec(before + seq![lifetime] + seq![ty] + after)
            == instantiation_names_spec(before + seq![ty] + seq![lifetime] + after),
{
    let l = seq![lifetime];
    let t = seq![ty];
    lemma_names_of_one(lifetime);
    lemma_names_of_one(ty);
    lemma_names_distribute(before, l);
    lemma_names_distribute(before + l, t);
    lemma_names_distribute(before + l + t, after);
    lemma_names_distribute(before, t);
    lemma_names_distribute(before + t, l);
    lemma_names_distribute(before + t + l, after);
    assert(lifetime_names(before + l + t + after) =~= lifetime_names(before + t + l + after));
    assert(type_names(before + l + t + after) =~= type_names(before + t + l + after));
}

/// Among the names that stand for the parameters of an enum, every name of a
/// lifetime comes before every name of a type, whatever the declaration's
/// order: the names start with the lifetime names, and the type names follow.
pub proof fn lemma_lifetimes_come_first(params: Seq<GenericParamView>, i: int)
    requires
        0 <= i < instantiation_names_spec(params).len(),
    ensures
        i < lifetime_names(params).len() ==> instantiation_names_spec(params)[i] == lifetime_names(
            params,
        )[i],
        i >= lifetime_names(params).len() ==> instantiation_names_spec(params)[i] == type_names(
            params,
        )[i - lifetime_names(params).len()],
{
}

/// For an enum with a generic parameter list, the `impl` line gives the list
/// as the source has it right after `impl`, bounds included, and names the
/// enum with the names of its parameters alone, separated by `, `.
pub proof fn lemma_generic_impl_line(variant: ClassifiedVariantView)
    requires
        variant.generics is Some,
    ensures
        impl_header_spec(variant) == "\n\nimpl"@ + variant.generics->0.text + " From<"@
            + variant.field_type + "> for "@ + variant.enum_name + "<"@ + joined(
            lifetime_names(variant.generics->0.params) + type_names(variant.generics->0.params),
            ", "@,
        ) + ">"@,
{
}

/// Collects the names that stand for the parameters of `list` where the enum
/// is named: lifetimes first, then types, each kind in the order of the
/// declaration.
pub fn instantiation_names(list: &GenericParamList) -> (names: Vec<String>)
    ensures
        names.deep_view() == instantiation_names_spec(list@.params),
{
    let ghost params = list@.params;
    let mut names: Vec<String> = Vec::new();
    assert(names.deep_view() =~= lifetime_names(params.take(0)));
    let mut i: usize = 0;
    while i < list.params.len()
        invariant
            params == list@.params,
            i <= list.params.len(),
            names.deep_view() == lifetime_names(params.take(i as int)),
        decreases list.params.len() - i,
    {
        let param = &list.params[i];
        let ghost before = names.deep_view();
        assert(params.take(i + 1).drop_last() =~= params.take(i as int));
        assert(params.take(i + 1).last() == param@);
        match param {
            GenericParam::Lifetime { name: Some(name) } => {
                names.push(name.clone());
                assert(names.deep_view() =~= before.push(name@));
            },
            _ => {},
        }
        i += 1;
    }
    assert(params.take(i as int) =~= params);
    assert(names.deep_view() =~= lifetime_names(params) + type_names(params.take(0)));
    let mut j: usize = 0;
    while j < list.params.len()
        invariant
            params == list@.params,
            j <= list.params.len(),
            names.deep_view() == lifetime_names(params) + type_names(params.take(j as int)),
        decreases list.params.len() - j,
    {
        let param = &list.params[j];
        let ghost before = names.deep_view();
        assert(params.take(j + 1).drop_last() =~= params.take(j as int));
        assert(params.take(j + 1).last() == param@);
        match param {
            GenericParam::Type { name: Some(name), .. } => {
                names.push(name.clone());
                assert(names.deep_view() =~= before.push(name@));
                assert(before.push(name@) =~= lifetime_names(params) + type_names(
                    params.take(j as int),
                ).push(name@));
            },
            _ => {},
        }
        j += 1;
    }
    assert(params.take(j as int) =~= params);
    names
}

/// Writes the line that opens the `impl` block for `variant`.
pub fn impl_header(variant: &ClassifiedVariant) -> (text: String)
    ensures
        text@ == impl_header_spec(variant@),
{
    let mut text = String::from_str("\n\nimpl");
    if let Some(list) = &variant.generics {
        text.append(list.text.as_str());
    }
    text.append(" From<");
    text.append(variant.field_type.as_str());
    text.append("> for ");
    text.append(variant.enum_name.as_str());
    if let Some(list) = &variant.generics {
        let names = instantiation_names(list);
        let arguments = format_separated(&names, ", ");
        text.append("<");
        text.append(arguments.as_str());
        text.append(">");
    }
    text
}

/// Writes the body of the `impl` block for `variant`.
pub fn impl_body(variant: &ClassifiedVariant) -> (text: String)
    ensures
        text@ == impl_body_spec(variant@),
{
    match &variant.field_name {
        Some(name) => {
            let mut text = String::from_str(" {\n    fn from(");
            text.append(name.as_str());
            text.append(": ");
            text.append(variant.field_type.as_str());
            text.append(") -> Self {\n        Self::");
            text.append(variant.variant_name.as_str());
            text.append(" { ");
            text.append(name.as_str());
            text.append(" }\n    }\n}");
            text
        },
        None => {
            let mut text = String::from_str(" {\n    fn from(v: ");
            text.append(variant.field_type.as_str());
            text.append(") -> Self {\n        Self::");
            text.append(variant.variant_name.as_str());
            text.append("(v)\n    }\n}");
            text
        },
    }
}

/// Builds the edit that adds the conversion for `variant`: the text of the
/// `impl` block, to be inserted at the end of the enum declaration.
pub fn synthesize(variant: &ClassifiedVariant) -> (edit: SynthesizedEdit)
    ensures
        edit@ == synthesize_spec(variant@),
{
    let mut text = impl_header(variant);
    let body = impl_body(variant);
    text.append(body.as_str());
    SynthesizedEdit { offset: variant.enum_range.end, text }
}

} // verus!
