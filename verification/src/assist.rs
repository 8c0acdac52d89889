//! The transformation as a whole: from a document, a cursor offset and the
//! semantic context to a proposal, or to none.

use crate::classify::{
    classify, classify_spec, classify_variant_spec, enclosing_variant, is_smallest_enclosing,
    lemma_enclosing_variant_is_smallest, ClassifiedVariantView,
};
use crate::semantics::{existing_from_impl, SemanticContext, SemanticContextView, TraitImplView};
use crate::synthesize::{
    impl_header_spec, positional_body, shorthand_body, synthesize, synthesize_spec,
};
use crate::text::TextRange;
use crate::tree::{Document, DocumentView, RecordFieldView, ShapeView, TupleFieldView};
use vstd::prelude::*;

verus! {

/// An optional change offered to the user: what it is called, where the
/// cursor must be for it to be offered, and the text it inserts.
#[derive(Clone, Debug, PartialEq, Eq)]
pub struct Proposal {
    pub id: String,
    pub label: String,
    /// The span of the variant that the proposal is about.
    pub applicable_range: TextRange,
    pub insertion_offset: u32,
    pub inserted_text: String,
}

/// What a [`Proposal`] holds, as mathematical values.
pub struct ProposalView {
    pub id: Seq<char>,
    pub label: Seq<char>,
    pub applicable_range: TextRange,
    pub insertion_offset: u32,
    pub inserted_text: Seq<char>,
}

impl View for Proposal {
    type V = ProposalView;

    open spec fn view(&self) -> ProposalView {
        ProposalView {
            id: self.id@,
            label: self.label@,
            applicable_range: self.applicable_range,
            insertion_offset: self.insertion_offset,
            inserted_text: self.inserted_text@,
        }
    }
}

/// The proposal for a classified variant.
pub open spec fn proposal_for(variant: ClassifiedVariantView) -> ProposalView {
    ProposalView {
        id: "generate_from_impl_for_enum"@,
        label: "Generate `From` impl for this enum variant"@,
        applicable_range: variant.range,
        insertion_offset: synthesize_spec(variant).offset,
        inserted_text: synthesize_spec(variant).text,
    }
}

/// The proposal for the cursor at `offset`: none where no variant can be
/// classified there, none where the enum converts from the field's type
/// already, else the proposal for the variant under the cursor.
pub open spec fn propose_spec(doc: DocumentView, offset: u32, sema: SemanticContextView) -> Option<
    ProposalView,
> {
    match classify_spec(doc, offset) {
        Some(variant) => if sema.already_converts(variant.range) {
            None
        } else {
            Some(proposal_for(variant))
        },
        None => None,
    }
}

/// Proposes a `From` implementation for the enum variant under the cursor.
///
/// There is a proposal exactly when the smallest variant whose span covers
/// `offset` has a name, belongs to a named enum and has a single field with a
/// type (and, in a record variant, a name), and the semantic context does not
/// show that the enum converts from that type already. The proposal inserts
/// the new `impl` block at the end of the enum declaration. It depends on
/// nothing but the three arguments.
pub fn generate_from_impl_for_enum(
    document: &Document,
    offset: u32,
    sema: &SemanticContext,
) -> (proposal: Option<Proposal>)
    ensures
        match proposal {
            Some(p) => propose_spec(document@, offset, sema@) == Some(p@),
            None => propose_spec(document@, offset, sema@) is None,
        },
{
    let variant = match classify(document, offset) {
        Some(variant) => variant,
        None => {
            return None;
        },
    };
    if existing_from_impl(sema, &variant) {
        return None;
    }
    let edit = synthesize(&variant);
    Some(
        Proposal {
            id: String::from_str("generate_from_impl_for_enum"),
            label: String::from_str("Generate `From` impl for this enum variant"),
            applicable_range: variant.range,
            insertion_offset: edit.offset,
            inserted_text: edit.text,
        },
    )
}

/// For a variant with exactly one unnamed field of type `ty`, under the
/// cursor, named, in a named enum that does not convert from `ty` yet, the
/// proposal inserts an `impl` block whose function `from` takes a parameter
/// `v` and builds the variant by a call.
pub proof fn lemma_unnamed_field_conversion(
    doc: DocumentView,
    offset: u32,
    sema: SemanticContextView,
    e: int,
    v: int,
    enum_name: Seq<char>,
    variant_name: Seq<char>,
    ty: Seq<char>,
)
    requires
        is_smallest_enclosing(doc, offset, e, v),
        doc.enums[e].name == Some(enum_name),
        doc.enums[e].variants[v].name == Some(variant_name),
        doc.enums[e].variants[v].shape == ShapeView::Tuple(seq![(TupleFieldView { ty: Some(ty) })]),
        !sema.already_converts(doc.enums[e].variants[v].range),
    ensures
        ({
            let variant = ClassifiedVariantView {
                variant_name,
                enum_name,
                generics: doc.enums[e].generics,
                field_name: None,
                field_type: ty,
                range: doc.enums[e].variants[v].range,
                enum_range: doc.enums[e].range,
            };
            &&& classify_spec(doc, offset) == Some(variant)
            &&& propose_spec(doc, offset, sema) == Some(proposal_for(variant))
            &&& proposal_for(variant).insertion_offset == doc.enums[e].range.end
            &&& proposal_for(variant).inserted_text == impl_header_spec(variant) + positional_body(
                ty,
                variant_name,
            )
        }),
{
    lemma_enclosing_variant_is_smallest(doc, offset, e, v);
}

/// For a variant with exactly one named field `field: ty`, under the cursor,
/// named, in a named enum that does not convert from `ty` yet, the proposal
/// inserts an `impl` block whose function `from` takes a parameter named
/// `field` and builds the variant with that name alone between braces.
pub proof fn lemma_named_field_conversion(
    doc: DocumentView,
    offset: u32,
    sema: SemanticContextView,
    e: int,
    v: int,
    enum_name: Seq<char>,
    variant_name: Seq<char>,
    field: Seq<char>,
    ty: Seq<char>,
)
    requires
        is_smallest_enclosing(doc, offset, e, v),
        doc.enums[e].name == Some(enum_name),
        doc.enums[e].variants[v].name == Some(variant_name),
        doc.enums[e].variants[v].shape == ShapeView::Record(
            seq![(RecordFieldView { name: Some(field), ty: Some(ty) })],
        ),
        !sema.already_converts(doc.enums[e].variants[v].range),
    ensures
        ({
            let variant = ClassifiedVariantView {
                variant_name,
                enum_name,
                generics: doc.enums[e].generics,
                field_name: Some(field),
                field_type: ty,
                range: doc.enums[e].variants[v].range,
                enum_range: doc.enums[e].range,
            };
            &&& classify_spec(doc, offset) == Some(variant)
            &&& propose_spec(doc, offset, sema) == Some(proposal_for(variant))
            &&& proposal_for(variant).insertion_offset == doc.enums[e].range.end
            &&& proposal_for(variant).inserted_text == impl_header_spec(variant) + shorthand_body(
                field,
                ty,
                variant_name,
            )
        }),
{
    lemma_enclosing_variant_is_smallest(doc, offset, e, v);
}

/// Where the variant under the cursor has no field, or two or more, named or
/// not, nothing is proposed, whatever the semantic context holds.
pub proof fn lemma_no_proposal_without_single_field(
    doc: DocumentView,
    offset: u32,
    sema: SemanticContextView,
    e: int,
    v: int,
)
    requires
        is_smallest_enclosing(doc, offset, e, v),
        doc.enums[e].variants[v].shape.field_count() != 1,
    ensures
        propose_spec(doc, offset, sema) is None,
{
    lemma_enclosing_variant_is_smallest(doc, offset, e, v);
}

/// Every proposal is for a variant that covers the cursor and has exactly one
/// field, and it is offered on that variant's span and inserts at the end of
/// that variant's enum.
pub proof fn lemma_proposal_has_single_field(
    doc: DocumentView,
    offset: u32,
    sema: SemanticContextView,
)
    requires
        propose_spec(doc, offset, sema) is Some,
    ensures
        enclosing_variant(doc, offset) matches Some((e, v)) && ({
            &&& is_smallest_enclosing(doc, offset, e, v)
            &&& doc.enums[e].variants[v].shape.field_count() == 1
            &&& propose_spec(doc, offset, sema)->0.applicable_range
                == doc.enums[e].variants[v].range
            &&& propose_spec(doc, offset, sema)->0.insertion_offset == doc.enums[e].range.end
        }),
{
    let (e, v) = enclosing_variant(doc, offset)->0;
    assert(is_smallest_enclosing(doc, offset, e, v));
    assert(classify_variant_spec(doc.enums[e], doc.enums[e].variants[v]) is Some);
}

/// A classified variant gets no proposal exactly when the semantic context
/// holds, at any place among its implementations, the conversion from the type
/// of that variant's own field. Implementations for other types, such as
/// those for the fields of other variants of the same enum, do not count, and
/// neither does any implementation while the variant or the conversion trait
/// does not resolve.
pub proof fn lemma_blocked_only_by_conversion_from_field_type(
    doc: DocumentView,
    offset: u32,
    sema: SemanticContextView,
    variant: ClassifiedVariantView,
)
    requires
        classify_spec(doc, offset) == Some(variant),
    ensures
        propose_spec(doc, offset, sema) is None <==> (sema.conversion_from_field(variant.range)
            matches Some(conversion) && exists|i: int|
            0 <= i < sema.impls.len() && #[trigger] sema.impls[i] == conversion),
        propose_spec(doc, offset, sema) is Some ==> propose_spec(doc, offset, sema) == Some(
            proposal_for(variant),
        ),
{
}

/// Adding an implementation that is not the conversion from the type of the
/// field of the variant under the cursor changes nothing about the proposal.
pub proof fn lemma_other_impl_keeps_proposal(
    doc: DocumentView,
    offset: u32,
    sema: SemanticContextView,
    other: TraitImplView,
)
    requires
        classify_spec(doc, offset) matches Some(variant) ==> sema.conversion_from_field(
            variant.range,
        ) != Some(other),
    ensures
        propose_spec(doc, offset, sema.with_impl(other)) == propose_spec(doc, offset, sema),
{
    match classify_spec(doc, offset) {
        Some(variant) => {
            sema.lemma_with_impl(other, variant.range);
        },
        None => {},
    }
}

/// The proposal is a function of the document, the offset and the semantic
/// context: invoking the transformation again on the same input gives the
/// same proposal.
pub proof fn lemma_same_input_same_proposal(
    doc: DocumentView,
    offset: u32,
    sema: SemanticContextView,
    doc_again: DocumentView,
    offset_again: u32,
    sema_again: SemanticContextView,
)
    requires
        doc == doc_again,
        offset == offset_again,
        sema == sema_again,
    ensures
        propose_spec(doc, offset, sema) == propose_spec(doc_again, offset_again, sema_again),
{
}

} // verus!
