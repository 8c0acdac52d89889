//! A plain-data model of what semantic analysis knows about a source file,
//! and the check for a conversion that exists already.
//!
//! Types, traits and compilation units are known by the numbers that the
//! analysis gave them: two types are the same type exactly when their numbers
//! are equal, however they are spelled in the source.

use crate::classify::ClassifiedVariant;
use crate::text::TextRange;
use vstd::prelude::*;

verus! {

/// An enum as semantic analysis knows it.
#[derive(Clone, Copy, Debug, PartialEq, Eq, Structural)]
pub struct SemanticEnum {
    /// The type of the enum.
    pub ty: u64,
    /// The compilation unit that owns the enum.
    pub unit: u64,
}

/// A variant as semantic analysis knows it.
#[derive(Clone, Debug, PartialEq, Eq)]
pub struct SemanticVariant {
    /// The span of the variant in the source, by which it is found.
    pub node: TextRange,
    pub parent_enum: SemanticEnum,
    /// The type of each field, in the order of the fields.
    pub field_types: Vec<u64>,
}

/// What a [`SemanticVariant`] holds, as mathematical values.
pub struct SemanticVariantView {
    pub node: TextRange,
    pub parent_enum: SemanticEnum,
    pub field_types: Seq<u64>,
}

impl View for SemanticVariant {
    type V = SemanticVariantView;

    open spec fn view(&self) -> SemanticVariantView {
        SemanticVariantView {
            node: self.node,
            parent_enum: self.parent_enum,
            field_types: self.field_types@,
        }
    }
}

/// The standard conversion trait as one compilation unit sees it.
#[derive(Clone, Copy, Debug, PartialEq, Eq, Structural)]
pub struct ConversionTrait {
    pub unit: u64,
    pub trait_def: u64,
}

/// The fact that `self_type` implements `trait_def` with the type arguments
/// `type_args`.
#[derive(Clone, Debug, PartialEq, Eq)]
pub struct TraitImpl {
    pub self_type: u64,
    pub trait_def: u64,
    pub type_args: Vec<u64>,
}

/// What a [`TraitImpl`] holds, as mathematical values.
pub struct TraitImplView {
    pub self_type: u64,
    pub trait_def: u64,
    pub type_args: Seq<u64>,
}

impl View for TraitImpl {
    type V = TraitImplView;

    open spec fn view(&self) -> TraitImplView {
        TraitImplView {
            self_type: self.self_type,
            trait_def: self.trait_def,
            type_args: self.type_args@,
        }
    }
}

/// What semantic analysis knows: the variants it resolved, the conversion
/// trait of each compilation unit that can see one, and the trait
/// implementations. Of two entries for one variant or for one unit the first
/// counts.
#[derive(Clone, Debug, PartialEq, Eq)]
pub struct SemanticContext {
    pub variants: Vec<SemanticVariant>,
    pub conversion_traits: Vec<ConversionTrait>,
    pub impls: Vec<TraitImpl>,
}

/// What a [`SemanticContext`] holds, as mathematical values.
pub struct SemanticContextView {
    pub variants: Seq<SemanticVariantView>,
    pub conversion_traits: Seq<ConversionTrait>,
    pub impls: Seq<TraitImplView>,
}

impl View for SemanticContext {
    type V = SemanticContextView;

    open spec fn view(&self) -> SemanticContextView {
        SemanticContextView {
            variants: self.variants@.map_values(|v: SemanticVariant| v@),
            conversion_traits: self.conversion_traits@,
            impls: self.impls@.map_values(|i: TraitImpl| i@),
        }
    }
}

impl SemanticContextView {
    /// Whether the entry at `i` is the first one for the variant at `node`.
    pub open spec fn is_first_variant(self, node: TextRange, i: int) -> bool {
        &&& 0 <= i < self.variants.len()
        &&& self.variants[i].node == node
        &&& forall|j: int| 0 <= j < i ==> (#[trigger] self.variants[j]).node != node
    }

    /// The variant that the node at `node` resolves to, if it resolves.
    pub open spec fn resolve_variant(self, node: TextRange) -> Option<SemanticVariantView> {
        if exists|i: int| self.is_first_variant(node, i) {
            Some(self.variants[choose|i: int| self.is_first_variant(node, i)])
        } else {
            None
        }
    }

    /// Whether the entry at `i` is the first one for the unit `unit`.
    pub open spec fn is_first_trait(self, unit: u64, i: int) -> bool {
        &&& 0 <= i < self.conversion_traits.len()
        &&& self.conversion_traits[i].unit == unit
        &&& forall|j: int| 0 <= j < i ==> (#[trigger] self.conversion_traits[j]).unit != unit
    }

    /// The conversion trait as `unit` sees it, if it sees one.
    pub open spec fn resolve_conversion_trait(self, unit: u64) -> Option<u64> {
        if exists|i: int| self.is_first_trait(unit, i) {
            Some(self.conversion_traits[choose|i: int| self.is_first_trait(unit, i)].trait_def)
        } else {
            None
        }
    }

    /// Whether `self_type` implements `trait_def` with exactly the type
    /// arguments `type_args`.
    pub open spec fn implements(self, self_type: u64, trait_def: u64, type_args: Seq<u64>) -> bool {
        exists|i: int|
            0 <= i < self.impls.len() && #[trigger] self.impls[i] == (TraitImplView {
                self_type,
                trait_def,
                type_args,
            })
    }

    /// The conversion that would stand in the way of a new one for the
    /// variant at `node`: the implementation of the conversion trait for the
    /// variant's enum whose one type argument is the type of the variant's
    /// first field. There is none to speak of where the variant does not
    /// resolve, where its unit sees no conversion trait, and where the variant
    /// has no field.
    pub open spec fn conversion_from_field(self, node: TextRange) -> Option<TraitImplView> {
        match self.resolve_variant(node) {
            Some(variant) => match self.resolve_conversion_trait(variant.parent_enum.unit) {
                Some(from_trait) => if variant.field_types.len() > 0 {
                    Some(
                        TraitImplView {
                            self_type: variant.parent_enum.ty,
                            trait_def: from_trait,
                            type_args: seq![variant.field_types[0]],
                        },
                    )
                } else {
                    None
                },
                None => None,
            },
            None => None,
        }
    }

    /// Whether the enum of the variant at `node` already converts from the
    /// type of the variant's first field. Where the variant does not resolve,
    /// where its unit sees no conversion trait, and where the variant has no
    /// field, the answer is no.
    pub open spec fn already_converts(self, node: TextRange) -> bool {
        match self.resolve_variant(node) {
            Some(variant) => match self.resolve_conversion_trait(variant.parent_enum.unit) {
                Some(from_trait) => {
                    &&& variant.field_types.len() > 0
                    &&& self.implements(
                        variant.parent_enum.ty,
                        from_trait,
                        seq![variant.field_types[0]],
                    )
                },
                None => false,
            },
            None => false,
        }
    }
}

impl SemanticContextView {
    /// The context with one more implementation, put behind the others.
    pub open spec fn with_impl(self, fact: TraitImplView) -> SemanticContextView {
        SemanticContextView { impls: self.impls.push(fact), ..self }
    }

    /// One more implementation changes what resolves in no way, and changes
    /// whether a conversion exists for a variant only if it is the conversion
    /// from the type of that variant's field.
    pub proof fn lemma_with_impl(self, fact: TraitImplView, node: TextRange)
        ensures
            self.with_impl(fact).resolve_variant(node) == self.resolve_variant(node),
            forall|unit: u64|
                self.with_impl(fact).resolve_conversion_trait(unit)
                    == self.resolve_conversion_trait(unit),
            self.with_impl(fact).conversion_from_field(node) == self.conversion_from_field(node),
            self.with_impl(fact).already_converts(node) == (self.already_converts(node)
                || self.conversion_from_field(node) == Some(fact)),
    {
        let more = self.with_impl(fact);
        assert(forall|i: int| more.is_first_variant(node, i) == self.is_first_variant(node, i));
        assert forall|unit: u64|
            more.resolve_conversion_trait(unit) == self.resolve_conversion_trait(unit) by {
            assert(forall|i: int| more.is_first_trait(unit, i) == self.is_first_trait(unit, i));
        }
        match self.conversion_from_field(node) {
            Some(conversion) => {
                let variant = self.resolve_variant(node)->0;
                let from_trait = self.resolve_conversion_trait(variant.parent_enum.unit)->0;
                assert(conversion == (TraitImplView {
                    self_type: variant.parent_enum.ty,
                    trait_def: from_trait,
                    type_args: seq![variant.field_types[0]],
                }));
                if self.implements(conversion.self_type, conversion.trait_def, conversion.type_args)
                {
                    let i = choose|i: int|
                        0 <= i < self.impls.len() && #[trigger] self.impls[i] == conversion;
                    assert(more.impls[i] == conversion);
                }
                if conversion == fact {
                    assert(more.impls[self.impls.len() as int] == conversion);
                }
                if more.implements(conversion.self_type, conversion.trait_def, conversion.type_args)
                {
                    let i = choose|i: int|
                        0 <= i < more.impls.len() && #[trigger] more.impls[i] == conversion;
                    if i < self.impls.len() {
                        assert(self.impls[i] == conversion);
                    }
                }
            },
            None => {},
        }
    }
}

/// Whether two lists hold the same numbers in the same order.
fn same_ids(a: &Vec<u64>, b: &Vec<u64>) -> (same: bool)
    ensures
        same == (a@ == b@),
{
    if a.len() != b.len() {
        return false;
    }
    let mut i: usize = 0;
    while i < a.len()
        invariant
            a.len() == b.len(),
            i <= a.len(),
            forall|k: int| 0 <= k < i ==> a@[k] == b@[k],
        decreases a.len() - i,
    {
        if a[i] != b[i] {
            return false;
        }
        i += 1;
    }
    assert(a@ =~= b@);
    true
}

impl SemanticContext {
    /// Resolves the variant whose node has the span `node`.
    pub fn resolve_variant(&self, node: TextRange) -> (found: Option<&SemanticVariant>)
        ensures
            match found {
                Some(variant) => self@.resolve_variant(node) == Some(variant@),
                None => self@.resolve_variant(node) is None,
            },
    {
        let mut i: usize = 0;
        while i < self.variants.len()
            invariant
                i <= self.variants.len(),
                forall|j: int| 0 <= j < i ==> (#[trigger] self@.variants[j]).node != node,
            decreases self.variants.len() - i,
        {
            let candidate = &self.variants[i];
            assert(self@.variants[i as int] == candidate@);
            if candidate.node.start == node.start && candidate.node.end == node.end {
                proof {
                    assert(self@.is_first_variant(node, i as int));
                    let c = choose|c: int| self@.is_first_variant(node, c);
                    assert(c == i);
                }
                return Some(candidate);
            }
            i += 1;
        }
        None
    }

    /// Resolves the standard conversion trait as the unit `unit` sees it.
    pub fn resolve_conversion_trait(&self, unit: u64) -> (found: Option<u64>)
        ensures
            found == self@.resolve_conversion_trait(unit),
    {
        let mut i: usize = 0;
        while i < self.conversion_traits.len()
            invariant
                i <= self.conversion_traits.len(),
                forall|j: int| 0 <= j < i ==> (#[trigger] self@.conversion_traits[j]).unit != unit,
            decreases self.conversion_traits.len() - i,
        {
            let candidate = self.conversion_traits[i];
            if candidate.unit == unit {
                proof {
                    assert(self@.is_first_trait(unit, i as int));
                    let c = choose|c: int| self@.is_first_trait(unit, c);
                    assert(c == i);
                }
                return Some(candidate.trait_def);
            }
            i += 1;
        }
        None
    }

    /// Whether `self_type` implements `trait_def` with exactly the type
    /// arguments `type_args`.
    pub fn implements(&self, self_type: u64, trait_def: u64, type_args: &Vec<u64>) -> (holds: bool)
        ensures
            holds == self@.implements(self_type, trait_def, type_args@),
    {
        let ghost wanted = TraitImplView { self_type, trait_def, type_args: type_args@ };
        let mut i: usize = 0;
        while i < self.impls.len()
            invariant
                i <= self.impls.len(),
                wanted == (TraitImplView { self_type, trait_def, type_args: type_args@ }),
                forall|j: int| 0 <= j < i ==> #[trigger] self@.impls[j] != wanted,
            decreases self.impls.len() - i,
        {
            let candidate = &self.impls[i];
            assert(self@.impls[i as int] == candidate@);
            if candidate.self_type == self_type && candidate.trait_def == trait_def && same_ids(
                &candidate.type_args,
                type_args,
            ) {
                return true;
            }
            i += 1;
        }
        false
    }
}

/// Whether the enum of `variant` already converts from the type of the
/// variant's field. The check goes by types, not by names: only an
/// implementation of the conversion trait for the enum whose one type
/// argument is the field's own type counts. Where the analysis cannot
/// resolve the variant or the conversion trait, the answer is that no
/// conversion exists.
pub fn existing_from_impl(sema: &SemanticContext, variant: &ClassifiedVariant) -> (found: bool)
    ensures
        found == sema@.already_converts(variant.range),
{
    let def = match sema.resolve_variant(variant.range) {
        Some(def) => def,
        None => {
            return false;
        },
    };
    let from_trait = match sema.resolve_conversion_trait(def.parent_enum.unit) {
        Some(from_trait) => from_trait,
        None => {
            return false;
        },
    };
    if def.field_types.len() == 0 {
        return false;
    }
    let mut type_args: Vec<u64> = Vec::new();
    type_args.push(def.field_types[0]);
    assert(type_args@ =~= seq![def@.field_types[0]]);
    sema.implements(def.parent_enum.ty, from_trait, &type_args)
}

} // verus!
