//! A record definition as plain data: of each declared type and of each
//! attribute, what the classifier reads, and of the definition, its form.

use vstd::prelude::*;

verus! {

/// One argument between the angle brackets of a path segment.
#[derive(Debug, PartialEq, Eq)]
pub enum GenericArg {
    Type(TypeExpr),
    /// A lifetime, a constant, a binding or a constraint.
    Other,
}

/// The arguments of a path segment.
#[derive(Debug, PartialEq, Eq)]
pub enum PathArgs {
    Absent,
    /// As in `Option<u8>`.
    AngleBracketed(Vec<GenericArg>),
    /// As in `Fn(u8) -> u8`.
    Parenthesized,
}

/// One segment of a path: a name and its arguments.
#[derive(Debug, PartialEq, Eq)]
pub struct PathSegment {
    pub ident: String,
    pub arguments: PathArgs,
}

/// A path such as `u8`, `Option<u8>` or `::std::string::String`.
#[derive(Debug, PartialEq, Eq)]
pub struct PathExpr {
    pub leading_colon: bool,
    pub segments: Vec<PathSegment>,
}

/// The declared type of a field.
#[derive(Debug, PartialEq, Eq)]
pub enum TypeExpr {
    Path(PathExpr),
    /// A reference, a tuple, an array or any other form that is no path.
    Other,
}

/// One token between the parentheses of an attribute, at the top level.
#[derive(Debug, PartialEq, Eq)]
pub enum AttrToken {
    Group,
    Ident(String),
    Punct,
    Literal,
}

/// The form of an attribute.
#[derive(Debug, PartialEq, Eq)]
pub enum AttrMeta {
    /// A bare path, as in `#[name]`.
    Path,
    /// A path and tokens in parentheses, as in `#[name(a, b)]`.
    List(Vec<AttrToken>),
    /// A path and a value, as in `#[name = "value"]`.
    NameValue,
}

/// An attribute of a field.
#[derive(Debug, PartialEq, Eq)]
pub struct Attr {
    pub path: PathExpr,
    pub meta: AttrMeta,
}

/// A named field of a record definition.
#[derive(Debug, PartialEq, Eq)]
pub struct FieldDef {
    pub attrs: Vec<Attr>,
    pub ident: String,
    pub ty: TypeExpr,
}

/// The fields of a struct.
#[derive(Debug, PartialEq, Eq)]
pub enum Fields {
    /// Named fields, in the order of their declaration.
    Named(Vec<FieldDef>),
    /// The fields of a tuple struct.
    Unnamed,
    Unit,
}

/// What a definition defines.
#[derive(Debug, PartialEq, Eq)]
pub enum Data {
    Struct(Fields),
    Enum,
    Union,
}

/// The definition that an encoder or a decoder is made for.
#[derive(Debug, PartialEq, Eq)]
pub struct DeriveInput {
    pub ident: String,
    pub data: Data,
}

impl TypeExpr {
    /// The type written as the single name `name`, as in `u64`.
    pub fn name(name: &str) -> (ty: TypeExpr)
        ensures
            ty.ident() == Some(name@),
            ty.is_option() <==> name@ == "Option"@,
            ty.option_inner() is None,
    {
        TypeExpr::Path(
            PathExpr {
                leading_colon: false,
                segments: vec![PathSegment { ident: name.to_owned(), arguments: PathArgs::Absent }],
            },
        )
    }

    /// The type `Option<inner>`.
    pub fn option(inner: TypeExpr) -> (ty: TypeExpr)
        ensures
            ty.is_option(),
            ty.option_inner() == Some(inner),
            ty.ident() is None,
    {
        TypeExpr::Path(
            PathExpr {
                leading_colon: false,
                segments: vec![
                    PathSegment {
                        ident: "Option".to_owned(),
                        arguments: PathArgs::AngleBracketed(vec![GenericArg::Type(inner)]),
                    },
                ],
            },
        )
    }
}

impl Attr {
    /// The attribute `#[serde_tuplex]`, which asks for lenient reading.
    pub fn lenient() -> (attr: Attr)
        ensures
            attr.is_marker(),
            !attr.has_skip(),
    {
        Attr {
            path: PathExpr {
                leading_colon: false,
                segments: vec![
                    PathSegment { ident: "serde_tuplex".to_owned(), arguments: PathArgs::Absent },
                ],
            },
            meta: AttrMeta::Path,
        }
    }

    /// The attribute `#[serde_tuplex(skip)]`, which asks for strict reading.
    pub fn skip() -> (attr: Attr)
        ensures
            attr.is_marker(),
            attr.has_skip(),
    {
        let attr = Attr {
            path: PathExpr {
                leading_colon: false,
                segments: vec![
                    PathSegment { ident: "serde_tuplex".to_owned(), arguments: PathArgs::Absent },
                ],
            },
            meta: AttrMeta::List(vec![AttrToken::Ident("skip".to_owned())]),
        };
        assert(crate::analysis::is_skip(attr.meta->List_0@[0]));
        attr
    }
}

impl FieldDef {
    /// The field `name: ty`, without attributes.
    pub fn new(name: &str, ty: TypeExpr) -> (field: FieldDef)
        ensures
            field.ident@ == name@,
            field.ty == ty,
            field.attrs@.len() == 0,
    {
        FieldDef { attrs: Vec::new(), ident: name.to_owned(), ty }
    }

    /// The field with one more attribute, after those that it has.
    pub fn with_attr(self, attr: Attr) -> (field: FieldDef)
        ensures
            field.ident == self.ident,
            field.ty == self.ty,
            field.attrs@ == self.attrs@.push(attr),
    {
        let mut field = self;
        field.attrs.push(attr);
        field
    }
}

impl DeriveInput {
    /// The definition of a struct with named fields.
    pub fn record(name: &str, fields: Vec<FieldDef>) -> (input: DeriveInput)
        ensures
            input.ident@ == name@,
            input.data == Data::Struct(Fields::Named(fields)),
    {
        DeriveInput { ident: name.to_owned(), data: Data::Struct(Fields::Named(fields)) }
    }
}

} // verus!
