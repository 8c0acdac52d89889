//! A plain-data model of the enum declarations of a parsed source file.
//!
//! Every piece that a source with errors may lack (a name, a field's type) is
//! an `Option`, and every node carries the span of source text that it covers.

use crate::text::TextRange;
use vstd::prelude::*;

verus! {

/// One parameter of a generic parameter list.
#[derive(Debug, PartialEq, Eq)]
pub enum GenericParam {
    /// A lifetime parameter, such as `'a`; the name includes the quote.
    Lifetime { name: Option<String> },
    /// A type parameter, such as `U: Clone`, with the text of its bounds.
    Type { name: Option<String>, bounds: Option<String> },
}

/// What a [`GenericParam`] holds, as mathematical values.
pub enum GenericParamView {
    Lifetime { name: Option<Seq<char>> },
    Type { name: Option<Seq<char>>, bounds: Option<Seq<char>> },
}

impl View for GenericParam {
    type V = GenericParamView;

    open spec fn view(&self) -> GenericParamView {
        match *self {
            GenericParam::Lifetime { name } => GenericParamView::Lifetime {
                name: name.deep_view(),
            },
            GenericParam::Type { name, bounds } => GenericParamView::Type {
                name: name.deep_view(),
                bounds: bounds.deep_view(),
            },
        }
    }
}

impl Clone for GenericParam {
    fn clone(&self) -> (copy: Self)
        ensures
            copy@ == self@,
    {
        match self {
            GenericParam::Lifetime { name } => GenericParam::Lifetime { name: name.clone() },
            GenericParam::Type { name, bounds } => GenericParam::Type {
                name: name.clone(),
                bounds: bounds.clone(),
            },
        }
    }
}

/// The generic parameter list of a declaration: its source text, angle
/// brackets included, and its parameters in the order of the source.
#[derive(Debug, PartialEq, Eq)]
pub struct GenericParamList {
    pub text: String,
    pub params: Vec<GenericParam>,
}

/// What a [`GenericParamList`] holds, as mathematical values.
pub struct GenericParamListView {
    pub text: Seq<char>,
    pub params: Seq<GenericParamView>,
}

impl View for GenericParamList {
    type V = GenericParamListView;

    open spec fn view(&self) -> GenericParamListView {
        GenericParamListView {
            text: self.text@,
            params: self.params@.map_values(|p: GenericParam| p@),
        }
    }
}

impl Clone for GenericParamList {
    fn clone(&self) -> (copy: Self)
        ensures
            copy@ == self@,
    {
        let mut params: Vec<GenericParam> = Vec::new();
        let mut i: usize = 0;
        while i < self.params.len()
            invariant
                i <= self.params.len(),
                params.len() == i,
                forall|k: int| 0 <= k < i ==> params@[k]@ == self.params@[k]@,
            decreases self.params.len() - i,
        {
            params.push(self.params[i].clone());
            i += 1;
        }
        let copy = GenericParamList { text: self.text.clone(), params };
        assert(copy@.params =~= self@.params);
        copy
    }
}

/// A field of a tuple variant: only its type, as source text.
#[derive(Clone, Debug, PartialEq, Eq)]
pub struct TupleField {
    pub ty: Option<String>,
}

/// What a [`TupleField`] holds, as mathematical values.
pub struct TupleFieldView {
    pub ty: Option<Seq<char>>,
}

impl View for TupleField {
    type V = TupleFieldView;

    open spec fn view(&self) -> TupleFieldView {
        TupleFieldView { ty: self.ty.deep_view() }
    }
}

/// A field of a record variant: its name and its type, as source text.
#[derive(Clone, Debug, PartialEq, Eq)]
pub struct RecordField {
    pub name: Option<String>,
    pub ty: Option<String>,
}

/// What a [`RecordField`] holds, as mathematical values.
pub struct RecordFieldView {
    pub name: Option<Seq<char>>,
    pub ty: Option<Seq<char>>,
}

impl View for RecordField {
    type V = RecordFieldView;

    open spec fn view(&self) -> RecordFieldView {
        RecordFieldView { name: self.name.deep_view(), ty: self.ty.deep_view() }
    }
}

/// The fields of a variant.
#[derive(Clone, Debug, PartialEq, Eq)]
pub enum Shape {
    /// No field list, as in `One`.
    Unit,
    /// Unnamed fields in round brackets, as in `One(u32)`.
    Tuple(Vec<TupleField>),
    /// Named fields in braces, as in `One { x: u32 }`.
    Record(Vec<RecordField>),
}

/// What a [`Shape`] holds, as mathematical values.
pub enum ShapeView {
    Unit,
    Tuple(Seq<TupleFieldView>),
    Record(Seq<RecordFieldView>),
}

impl View for Shape {
    type V = ShapeView;

    open spec fn view(&self) -> ShapeView {
        match *self {
            Shape::Unit => ShapeView::Unit,
            Shape::Tuple(fields) => ShapeView::Tuple(fields@.map_values(|f: TupleField| f@)),
            Shape::Record(fields) => ShapeView::Record(fields@.map_values(|f: RecordField| f@)),
        }
    }
}

impl ShapeView {
    /// The number of fields.
    pub open spec fn field_count(self) -> nat {
        match self {
            ShapeView::Unit => 0,
            ShapeView::Tuple(fields) => fields.len(),
            ShapeView::Record(fields) => fields.len(),
        }
    }
}

/// One variant of an enum declaration.
#[derive(Clone, Debug, PartialEq, Eq)]
pub struct Variant {
    pub name: Option<String>,
    pub shape: Shape,
    /// The span of the whole variant.
    pub range: TextRange,
}

/// What a [`Variant`] holds, as mathematical values.
pub struct VariantView {
    pub name: Option<Seq<char>>,
    pub shape: ShapeView,
    pub range: TextRange,
}

impl View for Variant {
    type V = VariantView;

    open spec fn view(&self) -> VariantView {
        VariantView { name: self.name.deep_view(), shape: self.shape@, range: self.range }
    }
}

/// An enum declaration.
#[derive(Clone, Debug, PartialEq, Eq)]
pub struct EnumDecl {
    pub name: Option<String>,
    /// The generic parameter list, where the declaration has one.
    pub generics: Option<GenericParamList>,
    pub variants: Vec<Variant>,
    /// The span of the whole declaration.
    pub range: TextRange,
}

/// What an [`EnumDecl`] holds, as mathematical values.
pub struct EnumDeclView {
    pub name: Option<Seq<char>>,
    pub generics: Option<GenericParamListView>,
    pub variants: Seq<VariantView>,
    pub range: TextRange,
}

impl View for EnumDecl {
    type V = EnumDeclView;

    open spec fn view(&self) -> EnumDeclView {
        EnumDeclView {
            name: self.name.deep_view(),
            generics: match self.generics {
                Some(list) => Some(list@),
                None => None,
            },
            variants: self.variants@.map_values(|v: Variant| v@),
            range: self.range,
        }
    }
}

/// The enum declarations of one source file, in the order of the source.
#[derive(Clone, Debug, PartialEq, Eq)]
pub struct Document {
    pub enums: Vec<EnumDecl>,
}

/// What a [`Document`] holds, as mathematical values.
pub struct DocumentView {
    pub enums: Seq<EnumDeclView>,
}

impl View for Document {
    type V = DocumentView;

    open spec fn view(&self) -> DocumentView {
        DocumentView { enums: self.enums@.map_values(|e: EnumDecl| e@) }
    }
}

} // verus!
