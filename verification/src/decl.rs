//! The declaration that code is synthesized for, as plain values: a type's
//! name, its annotations and its fields.

use vstd::prelude::*;

verus! {

/// Why a declaration cannot be processed.
#[derive(Clone, Copy, Debug, PartialEq, Eq)]
pub enum MacroError {
    /// The declaration is an enum or a union.
    NotAStruct,
    /// A field has no name.
    UnnamedField,
    /// The path of an annotation, or the key of one of its entries, is not a
    /// single identifier.
    PathNotIdent,
}

impl MacroError {
    /// The failure in words.
    pub fn message(&self) -> (r: String)
        ensures
            r@ == match *self {
                MacroError::NotAStruct => "仅用于 struct"@,
                MacroError::UnnamedField => "every field needs a name"@,
                MacroError::PathNotIdent => "an annotation path or key is not an identifier"@,
            },
    {
        match self {
            MacroError::NotAStruct => "仅用于 struct".to_owned(),
            MacroError::UnnamedField => "every field needs a name".to_owned(),
            MacroError::PathNotIdent => "an annotation path or key is not an identifier".to_owned(),
        }
    }
}

/// The value of a `key = value` entry.
#[derive(Clone, Debug)]
pub enum Literal {
    /// A string literal, with its value.
    Str(String),
    /// Any other literal.
    Other,
}

impl Literal {
    /// The string that the literal holds, if it is a string literal.
    pub open spec fn text(self) -> Option<Seq<char>> {
        match self {
            Literal::Str(s) => Some(s@),
            Literal::Other => None,
        }
    }

    /// The string that the literal holds, and the empty string for a literal
    /// of another kind.
    pub open spec fn text_or_empty(self) -> Seq<char> {
        match self {
            Literal::Str(s) => s@,
            Literal::Other => Seq::empty(),
        }
    }
}

/// One entry between the parentheses of an annotation.
#[derive(Clone, Debug)]
pub enum MetaItem {
    /// `key = value`. The key is `None` when it is a path of several segments.
    NameValue { key: Option<String>, value: Literal },
    /// A bare word, a nested list or a bare literal.
    Other,
}

/// The parenthesised list of an annotation.
#[derive(Clone, Debug)]
pub struct MetaList {
    /// The annotation's name; `None` when it is a path of several segments.
    pub ident: Option<String>,
    /// The entries, in written order.
    pub items: Vec<MetaItem>,
}

/// One annotation on a declaration or on a field.
#[derive(Clone, Debug)]
pub struct Annotation {
    /// The annotation's path as written.
    pub path: String,
    /// Its entries, when it has the form `path(entry, ...)` and the entries
    /// are well formed; `None` otherwise.
    pub list: Option<MetaList>,
}

/// One field of a declaration.
#[derive(Clone, Debug)]
pub struct FieldDecl {
    /// The field's name, if it has one.
    pub ident: Option<String>,
    /// The field's type as written.
    pub ty: String,
    /// The annotations on the field, in written order.
    pub annotations: Vec<Annotation>,
}

/// How a struct lists its fields.
#[derive(Clone, Copy, Debug, PartialEq, Eq)]
pub enum FieldStyle {
    /// `struct S { a: A }`
    Named,
    /// `struct S(A);`
    Unnamed,
    /// `struct S;`
    Unit,
}

/// What a declaration declares.
#[derive(Clone, Debug)]
pub enum Body {
    /// A struct with its fields in declared order.
    Struct { style: FieldStyle, fields: Vec<FieldDecl> },
    /// An enum.
    Enum,
    /// A union.
    Union,
}

/// A type declaration with its annotations.
#[derive(Clone, Debug)]
pub struct Declaration {
    /// The type's name.
    pub ident: String,
    /// The annotations on the type, in written order.
    pub annotations: Vec<Annotation>,
    /// The type's body.
    pub body: Body,
}

impl Declaration {
    /// Whether the declaration declares a struct.
    pub fn is_struct(&self) -> (r: bool)
        ensures
            r == (self.body is Struct),
    {
        match &self.body {
            Body::Struct { style, fields } => true,
            Body::Enum => false,
            Body::Union => false,
        }
    }
}

/// The name of a field; the empty text where it has none.
pub open spec fn field_ident(f: FieldDecl) -> Seq<char> {
    match f.ident {
        Some(s) => s@,
        None => Seq::empty(),
    }
}

/// Every field has a name.
pub open spec fn all_named(fields: Seq<FieldDecl>) -> bool {
    forall|i: int| 0 <= i < fields.len() ==> (#[trigger] fields[i]).ident is Some
}

/// Whether every field has a name.
pub fn check_all_named(fields: &Vec<FieldDecl>) -> (r: bool)
    ensures
        r == all_named(fields@),
{
    let mut i: usize = 0;
    while i < fields.len()
        invariant
            i <= fields.len(),
            forall|j: int| 0 <= j < i ==> (#[trigger] fields@[j]).ident is Some,
        decreases fields.len() - i,
    {
        if fields[i].ident.is_none() {
            return false;
        }
        i += 1;
    }
    true
}

} // verus!
