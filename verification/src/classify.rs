//! Finding the variant under the cursor and deciding whether its shape
//! supports the conversion: exactly one field, named or not.

use crate::text::TextRange;
use crate::tree::{
    Document, DocumentView, EnumDecl, EnumDeclView, GenericParamList, GenericParamListView, Shape,
    ShapeView, Variant, VariantView,
};
use vstd::prelude::*;

verus! {

/// A variant that the conversion can be generated for, with everything the
/// later steps read of it and of its enum.
#[derive(Clone, Debug, PartialEq, Eq)]
pub struct ClassifiedVariant {
    pub variant_name: String,
    pub enum_name: String,
    /// The generic parameter list of the enum, where it has one.
    pub generics: Option<GenericParamList>,
    /// The name of the single field; `None` for a tuple variant.
    pub field_name: Option<String>,
    /// The type of the single field, as source text.
    pub field_type: String,
    /// The span of the variant.
    pub range: TextRange,
    /// The span of the enum declaration.
    pub enum_range: TextRange,
}

/// What a [`ClassifiedVariant`] holds, as mathematical values.
pub struct ClassifiedVariantView {
    pub variant_name: Seq<char>,
    pub enum_name: Seq<char>,
    pub generics: Option<GenericParamListView>,
    pub field_name: Option<Seq<char>>,
    pub field_type: Seq<char>,
    pub range: TextRange,
    pub enum_range: TextRange,
}

impl View for ClassifiedVariant {
    type V = ClassifiedVariantView;

    open spec fn view(&self) -> ClassifiedVariantView {
        ClassifiedVariantView {
            variant_name: self.variant_name@,
            enum_name: self.enum_name@,
            generics: match self.generics {
                Some(list) => Some(list@),
                None => None,
            },
            field_name: self.field_name.deep_view(),
            field_type: self.field_type@,
            range: self.range,
            enum_range: self.enum_range,
        }
    }
}

/// Whether the document has a variant at index `v` of the enum at index `e`
/// and the span of that variant covers `offset`.
pub open spec fn encloses(doc: DocumentView, offset: u32, e: int, v: int) -> bool {
    &&& 0 <= e < doc.enums.len()
    &&& 0 <= v < doc.enums[e].variants.len()
    &&& doc.enums[e].variants[v].range.covers(offset)
}

/// Whether the search takes the variant at `(e, v)` rather than the one at
/// `(e2, v2)`: the shorter span wins, and of two equally long spans the one
/// that comes first in the document.
pub open spec fn preferred(doc: DocumentView, e: int, v: int, e2: int, v2: int) -> bool {
    let a = doc.enums[e].variants[v].range.extent();
    let b = doc.enums[e2].variants[v2].range.extent();
    a < b || (a == b && (e < e2 || (e == e2 && v <= v2)))
}

/// Whether the variant at `(e, v)` is the smallest one that covers `offset`.
pub open spec fn is_smallest_enclosing(doc: DocumentView, offset: u32, e: int, v: int) -> bool {
    &&& encloses(doc, offset, e, v)
    &&& forall|e2: int, v2: int| #[trigger]
        encloses(doc, offset, e2, v2) ==> preferred(doc, e, v, e2, v2)
}

/// The position of the smallest variant that covers `offset`, if there is one.
pub open spec fn enclosing_variant(doc: DocumentView, offset: u32) -> Option<(int, int)> {
    if exists|e: int, v: int| is_smallest_enclosing(doc, offset, e, v) {
        Some(choose|e: int, v: int| is_smallest_enclosing(doc, offset, e, v))
    } else {
        None
    }
}

/// At most one variant is the smallest one that covers an offset.
pub proof fn lemma_smallest_enclosing_unique(
    doc: DocumentView,
    offset: u32,
    e: int,
    v: int,
    e2: int,
    v2: int,
)
    requires
        is_smallest_enclosing(doc, offset, e, v),
        is_smallest_enclosing(doc, offset, e2, v2),
    ensures
        e == e2,
        v == v2,
{
    assert(preferred(doc, e, v, e2, v2));
    assert(preferred(doc, e2, v2, e, v));
}

/// The smallest variant that covers an offset is what `enclosing_variant` names.
pub proof fn lemma_enclosing_variant_is_smallest(doc: DocumentView, offset: u32, e: int, v: int)
    requires
        is_smallest_enclosing(doc, offset, e, v),
    ensures
        enclosing_variant(doc, offset) == Some((e, v)),
{
    let (e2, v2) = choose|e2: int, v2: int| is_smallest_enclosing(doc, offset, e2, v2);
    lemma_smallest_enclosing_unique(doc, offset, e, v, e2, v2);
}

/// Where no variant covers an offset, `enclosing_variant` names none.
pub proof fn lemma_enclosing_variant_none(doc: DocumentView, offset: u32)
    requires
        forall|e: int, v: int| !encloses(doc, offset, e, v),
    ensures
        enclosing_variant(doc, offset) is None,
{
}

/// Where some variant covers an offset, one of the variants that cover it is
/// the smallest: the result names a smallest one.
proof fn lemma_smallest_among(doc: DocumentView, offset: u32, e: int, v: int) -> (smallest: (
    int,
    int,
))
    requires
        encloses(doc, offset, e, v),
    ensures
        is_smallest_enclosing(doc, offset, smallest.0, smallest.1),
    decreases doc.enums[e].variants[v].range.extent(), e, v,
{
    if is_smallest_enclosing(doc, offset, e, v) {
        (e, v)
    } else {
        let (e2, v2) = choose|e2: int, v2: int|
            #[trigger] encloses(doc, offset, e2, v2) && !preferred(doc, e, v, e2, v2);
        lemma_smallest_among(doc, offset, e2, v2)
    }
}

/// Where some variant covers an offset, `enclosing_variant` names one.
pub proof fn lemma_enclosing_variant_exists(doc: DocumentView, offset: u32, e: int, v: int)
    requires
        encloses(doc, offset, e, v),
    ensures
        enclosing_variant(doc, offset) is Some,
{
    let smallest = lemma_smallest_among(doc, offset, e, v);
    lemma_enclosing_variant_is_smallest(doc, offset, smallest.0, smallest.1);
}

/// Whether `(e2, v2)` comes before `(e, v)` in document order.
spec fn scanned(e2: int, v2: int, e: int, v: int) -> bool {
    e2 < e || (e2 == e && v2 < v)
}

/// Whether `best` is what a search that has looked at every position before
/// `(e, v)` holds: the preferred one of the variants seen that cover `offset`.
spec fn best_so_far(
    doc: DocumentView,
    offset: u32,
    best: Option<(usize, usize)>,
    e: int,
    v: int,
) -> bool {
    match best {
        Some((be, bv)) => {
            &&& encloses(doc, offset, be as int, bv as int)
            &&& scanned(be as int, bv as int, e, v)
            &&& forall|e2: int, v2: int| #[trigger]
                encloses(doc, offset, e2, v2) && scanned(e2, v2, e, v) ==> preferred(
                    doc,
                    be as int,
                    bv as int,
                    e2,
                    v2,
                )
        },
        None => forall|e2: int, v2: int| #[trigger]
            encloses(doc, offset, e2, v2) ==> !scanned(e2, v2, e, v),
    }
}

/// Finds the smallest variant whose span covers `offset`, the ends of the span
/// included, and returns the index of its enum and its index among the
/// variants of that enum. Of several equally small ones it returns the first
/// in the document.
pub fn find_enclosing_variant(document: &Document, offset: u32) -> (found: Option<(usize, usize)>)
    ensures
        match found {
            Some((e, v)) => is_smallest_enclosing(document@, offset, e as int, v as int),
            None => forall|e: int, v: int| !encloses(document@, offset, e, v),
        },
        match found {
            Some((e, v)) => enclosing_variant(document@, offset) == Some((e as int, v as int)),
            None => enclosing_variant(document@, offset) is None,
        },
{
    let mut best: Option<(usize, usize)> = None;
    let mut best_extent: u32 = 0;
    let mut e: usize = 0;
    while e < document.enums.len()
        invariant
            e <= document.enums.len(),
            best_so_far(document@, offset, best, e as int, 0),
            best matches Some((be, bv)) ==> best_extent
                == document@.enums[be as int].variants[bv as int].range.extent(),
        decreases document.enums.len() - e,
    {
        let decl = &document.enums[e];
        assert(document@.enums[e as int] == decl@);
        let mut v: usize = 0;
        while v < decl.variants.len()
            invariant
                e < document.enums.len(),
                document@.enums[e as int] == decl@,
                v <= decl.variants.len(),
                best_so_far(document@, offset, best, e as int, v as int),
                best matches Some((be, bv)) ==> best_extent
                    == document@.enums[be as int].variants[bv as int].range.extent(),
            decreases decl.variants.len() - v,
        {
            let range = decl.variants[v].range;
            assert(decl@.variants[v as int].range == range);
            if range.contains_inclusive(offset) {
                let extent: u32 = range.end - range.start;
                let better = match best {
                    Some(_) => extent < best_extent,
                    None => true,
                };
                if better {
                    best = Some((e, v));
                    best_extent = extent;
                }
            }
            v += 1;
        }
        e += 1;
    }
    proof {
        match best {
            Some((be, bv)) => {
                lemma_enclosing_variant_is_smallest(document@, offset, be as int, bv as int);
            },
            None => {
                lemma_enclosing_variant_none(document@, offset);
            },
        }
    }
    best
}

/// The single field of a variant, as the name it has, if any, and its type.
/// There is none where the variant has no field or several, or where the
/// source lacks the field's type or, in a record variant, its name.
pub open spec fn single_field(shape: ShapeView) -> Option<(Option<Seq<char>>, Seq<char>)> {
    match shape {
        ShapeView::Unit => None,
        ShapeView::Tuple(fields) => if fields.len() == 1 {
            match fields[0].ty {
                Some(ty) => Some((None, ty)),
                None => None,
            }
        } else {
            None
        },
        ShapeView::Record(fields) => if fields.len() == 1 {
            match (fields[0].name, fields[0].ty) {
                (Some(name), Some(ty)) => Some((Some(name), ty)),
                _ => None,
            }
        } else {
            None
        },
    }
}

/// What classifying `variant`, a variant of `decl`, gives: nothing unless the
/// variant and the enum are named and the variant has a single field.
pub open spec fn classify_variant_spec(decl: EnumDeclView, variant: VariantView) -> Option<
    ClassifiedVariantView,
> {
    match (variant.name, decl.name, single_field(variant.shape)) {
        (Some(variant_name), Some(enum_name), Some((field_name, field_type))) => Some(
            ClassifiedVariantView {
                variant_name,
                enum_name,
                generics: decl.generics,
                field_name,
                field_type,
                range: variant.range,
                enum_range: decl.range,
            },
        ),
        _ => None,
    }
}

/// What classifying the variant under `offset` gives.
pub open spec fn classify_spec(doc: DocumentView, offset: u32) -> Option<ClassifiedVariantView> {
    match enclosing_variant(doc, offset) {
        Some((e, v)) => classify_variant_spec(doc.enums[e], doc.enums[e].variants[v]),
        None => None,
    }
}

/// Classifies `variant`, which is a variant of `decl`. The result is `None`
/// where the variant or the enum has no name, where the variant has no field
/// or more than one, and where the single field lacks its type or, in a record
/// variant, its name.
pub fn classify_variant(decl: &EnumDecl, variant: &Variant) -> (classified: Option<
    ClassifiedVariant,
>)
    ensures
        match classified {
            Some(c) => classify_variant_spec(decl@, variant@) == Some(c@),
            None => classify_variant_spec(decl@, variant@) is None,
        },
{
    let variant_name = match &variant.name {
        Some(name) => name.clone(),
        None => {
            return None;
        },
    };
    let enum_name = match &decl.name {
        Some(name) => name.clone(),
        None => {
            return None;
        },
    };
    let (field_name, field_type) = match &variant.shape {
        Shape::Tuple(fields) => {
            if fields.len() != 1 {
                return None;
            }
            assert(variant@.shape->Tuple_0[0] == fields@[0]@);
            match &fields[0].ty {
                Some(ty) => (None, ty.clone()),
                None => {
                    return None;
                },
            }
        },
        Shape::Record(fields) => {
            if fields.len() != 1 {
                return None;
            }
            assert(variant@.shape->Record_0[0] == fields@[0]@);
            let field = &fields[0];
            match (&field.name, &field.ty) {
                (Some(name), Some(ty)) => (Some(name.clone()), ty.clone()),
                _ => {
                    return None;
                },
            }
        },
        Shape::Unit => {
            return None;
        },
    };
    let generics = match &decl.generics {
        Some(list) => Some(list.clone()),
        None => None,
    };
    Some(
        ClassifiedVariant {
            variant_name,
            enum_name,
            generics,
            field_name,
            field_type,
            range: variant.range,
            enum_range: decl.range,
        },
    )
}

/// Classifies the smallest variant whose span covers `offset`. The result is
/// `None` where no variant covers the offset and where `classify_variant`
/// rejects the variant found.
pub fn classify(document: &Document, offset: u32) -> (classified: Option<ClassifiedVariant>)
    ensures
        match classified {
            Some(c) => classify_spec(document@, offset) == Some(c@),
            None => classify_spec(document@, offset) is None,
        },
{
    match find_enclosing_variant(document, offset) {
        Some((e, v)) => {
            let decl = &document.enums[e];
            let variant = &decl.variants[v];
            assert(document@.enums[e as int] == decl@);
            assert(decl@.variants[v as int] == variant@);
            classify_variant(decl, variant)
        },
        None => None,
    }
}

} // verus!
