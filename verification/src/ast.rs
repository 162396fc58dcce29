//! The input model: a structural description of one user-defined type, as
//! the host's parser hands it over.

use vstd::prelude::*;

verus! {

/// The structural category of the data a variant carries. The exact field
/// count and the field names never matter to generation, only the category.
#[derive(Clone, Copy, PartialEq, Eq, Structural, Debug)]
pub enum FieldShape {
    /// The variant carries no data and is declared without a field list.
    Unit,
    /// The variant carries positional (unnamed) fields, possibly zero.
    Unnamed,
    /// The variant carries named fields.
    Named,
}

/// An opaque handle to a source location. The host keeps the real span and
/// hands the library a tag; every generated symbol and diagnostic carries
/// the tag of the declaration it originates from, so that errors point at
/// the user's own source.
#[derive(Clone, Copy, PartialEq, Eq, Structural, Debug)]
pub struct SpanTag {
    pub id: usize,
}

/// One alternative of a sum type.
pub struct Variant {
    /// The variant's identifier, exactly as declared.
    pub name: String,
    /// The shape of the data the variant carries.
    pub shape: FieldShape,
    /// Where the variant is declared.
    pub span: SpanTag,
}

/// What kind of type definition the annotated item turned out to be.
pub enum TypeBody {
    /// A sum type, with its variants in declaration order.
    Sum(Vec<Variant>),
    /// A record type: one fixed set of fields. Generation rejects it.
    Product,
    /// An untagged overlay of fields. Generation rejects it.
    Untagged,
}

/// The generic parameter text of the annotated type, carried through
/// generation verbatim. The three pieces are the ones an implementation
/// block needs: the parameter list with its bounds, the bare argument list
/// that follows the type's name, and the `where` clause. Each may be empty.
pub struct GenericsText {
    pub impl_params: String,
    pub ty_args: String,
    pub where_clause: String,
}

/// The structural description of the annotated item: the generator's whole
/// input.
pub struct TypeDescription {
    /// The type's identifier.
    pub name: String,
    /// Its generic parameter text, to be passed through unchanged.
    pub generics: GenericsText,
    /// Its classification, with the variants when it is a sum type.
    pub body: TypeBody,
    /// The site of the annotation that triggered generation; a rejection
    /// diagnostic is attached here.
    pub span: SpanTag,
}

} // verus!
