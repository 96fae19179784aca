//! The classifier: what a field's declared type and its annotation decide.

use vstd::prelude::*;
use crate::syntax::{
    Attr, AttrMeta, AttrToken, FieldDef, GenericArg, PathArgs, PathExpr, TypeExpr,
};
use crate::text::text_eq;
use crate::value::Target;

verus! {

/// How a field's input is read.
#[derive(Debug, Clone, Copy, PartialEq, Eq, Structural)]
pub enum Classification {
    /// A number or its text.
    Lenient,
    /// A number, its text, or the absent value.
    LenientOptional,
    /// The native form of the field's type only.
    Strict,
}

/// The scalar type that a type name stands for.
pub open spec fn scalar_target(name: Seq<char>) -> Target {
    if name == "u8"@ {
        Target::U8
    } else if name == "u16"@ {
        Target::U16
    } else if name == "u32"@ {
        Target::U32
    } else if name == "u64"@ {
        Target::U64
    } else if name == "u128"@ {
        Target::U128
    } else if name == "usize"@ {
        Target::Usize
    } else if name == "i8"@ {
        Target::I8
    } else if name == "i16"@ {
        Target::I16
    } else if name == "i32"@ {
        Target::I32
    } else if name == "i64"@ {
        Target::I64
    } else if name == "i128"@ {
        Target::I128
    } else if name == "isize"@ {
        Target::Isize
    } else if name == "f32"@ {
        Target::F32
    } else if name == "f64"@ {
        Target::F64
    } else if name == "bool"@ {
        Target::Bool
    } else if name == "String"@ {
        Target::Str
    } else {
        Target::Other
    }
}

/// Whether a type name is that of a base numeric scalar: an integer of 8 to
/// 128 bits or of pointer size, signed or not, or one of the two
/// floating-point types.
pub open spec fn is_numeric_name(name: Seq<char>) -> bool {
    name == "u8"@ || name == "u16"@ || name == "u32"@ || name == "u64"@ || name == "u128"@
        || name == "usize"@ || name == "i8"@ || name == "i16"@ || name == "i32"@ || name
        == "i64"@ || name == "i128"@ || name == "isize"@ || name == "f32"@ || name == "f64"@
}

/// `Option` is no numeric name: a type cannot be both a base numeric scalar
/// and `Option`.
pub proof fn lemma_option_is_no_numeric_name()
    ensures
        !is_numeric_name("Option"@),
{
    reveal_strlit("Option");
    reveal_strlit("u8");
    reveal_strlit("u16");
    reveal_strlit("u32");
    reveal_strlit("u64");
    reveal_strlit("u128");
    reveal_strlit("usize");
    reveal_strlit("i8");
    reveal_strlit("i16");
    reveal_strlit("i32");
    reveal_strlit("i64");
    reveal_strlit("i128");
    reveal_strlit("isize");
    reveal_strlit("f32");
    reveal_strlit("f64");
    assert("Option"@.len() == 6);
}

/// The scalar type that a type name stands for.
pub fn target_of_name(name: &str) -> (t: Target)
    ensures
        t == scalar_target(name@),
        is_numeric_name(name@) <==> t.is_integer() || t.is_float(),
{
    if text_eq(name, "u8") {
        Target::U8
    } else if text_eq(name, "u16") {
        Target::U16
    } else if text_eq(name, "u32") {
        Target::U32
    } else if text_eq(name, "u64") {
        Target::U64
    } else if text_eq(name, "u128") {
        Target::U128
    } else if text_eq(name, "usize") {
        Target::Usize
    } else if text_eq(name, "i8") {
        Target::I8
    } else if text_eq(name, "i16") {
        Target::I16
    } else if text_eq(name, "i32") {
        Target::I32
    } else if text_eq(name, "i64") {
        Target::I64
    } else if text_eq(name, "i128") {
        Target::I128
    } else if text_eq(name, "isize") {
        Target::Isize
    } else if text_eq(name, "f32") {
        Target::F32
    } else if text_eq(name, "f64") {
        Target::F64
    } else if text_eq(name, "bool") {
        Target::Bool
    } else if text_eq(name, "String") {
        Target::Str
    } else {
        Target::Other
    }
}

impl PathExpr {
    /// The name that the path consists of, where it is a single name: no
    /// leading colon, one segment, no arguments.
    pub open spec fn ident(self) -> Option<Seq<char>> {
        if !self.leading_colon && self.segments@.len() == 1
            && self.segments@[0].arguments is Absent {
            Some(self.segments@[0].ident@)
        } else {
            None
        }
    }

    /// Whether the path is the one name `Option`, with or without arguments.
    pub open spec fn is_option(self) -> bool {
        self.segments@.len() == 1 && self.segments@[0].ident@ == "Option"@
    }

    /// The first argument of `Option<..>`, where the path is such and the
    /// argument is a type.
    pub open spec fn option_inner(self) -> Option<TypeExpr> {
        if self.is_option() {
            match self.segments@[0].arguments {
                PathArgs::AngleBracketed(args) => if args@.len() > 0 {
                    match args@[0] {
                        GenericArg::Type(inner) => Some(inner),
                        GenericArg::Other => None,
                    }
                } else {
                    None
                },
                _ => None,
            }
        } else {
            None
        }
    }

    /// The name that the path consists of, where it is a single name.
    pub fn get_ident(&self) -> (r: Option<&String>)
        ensures
            match r {
                Some(name) => self.ident() == Some(name@),
                None => self.ident() is None,
            },
    {
        if !self.leading_colon && self.segments.len() == 1 {
            match self.segments[0].arguments {
                PathArgs::Absent => Some(&self.segments[0].ident),
                _ => None,
            }
        } else {
            None
        }
    }
}

impl TypeExpr {
    /// The name that the type consists of, where it is a single name.
    pub open spec fn ident(self) -> Option<Seq<char>> {
        match self {
            TypeExpr::Path(path) => path.ident(),
            TypeExpr::Other => None,
        }
    }

    /// Whether the type is a base numeric scalar.
    pub open spec fn is_base_numeric(self) -> bool {
        self.ident() matches Some(name) && is_numeric_name(name)
    }

    /// Whether the type is `Option`, written as that one name.
    pub open spec fn is_option(self) -> bool {
        self matches TypeExpr::Path(path) && path.is_option()
    }

    /// The type that `Option<..>` wraps, where the type is such.
    pub open spec fn option_inner(self) -> Option<TypeExpr> {
        match self {
            TypeExpr::Path(path) => path.option_inner(),
            TypeExpr::Other => None,
        }
    }

    /// Whether the type is a base numeric scalar, or `Option` of one.
    pub open spec fn is_numeric(self) -> bool {
        self.is_base_numeric() || (self.option_inner() matches Some(inner)
            && inner.is_base_numeric())
    }

    /// The scalar type that the type's name stands for.
    pub open spec fn scalar(self) -> Target {
        match self.ident() {
            Some(name) => scalar_target(name),
            None => Target::Other,
        }
    }

    /// The scalar type that a value of the field is read as: that of the
    /// type itself, or of what `Option` wraps.
    pub open spec fn target(self) -> Target {
        if self.is_option() {
            match self.option_inner() {
                Some(inner) => inner.scalar(),
                None => Target::Other,
            }
        } else {
            self.scalar()
        }
    }
}

/// Whether a type is a base numeric scalar.
pub fn is_base_numeric(ty: &TypeExpr) -> (r: bool)
    ensures
        r == ty.is_base_numeric(),
{
    let t = scalar_of(ty);
    match t {
        Target::Bool | Target::Str | Target::Other => false,
        _ => true,
    }
}

/// The scalar type that a type's name stands for.
pub fn scalar_of(ty: &TypeExpr) -> (t: Target)
    ensures
        t == ty.scalar(),
        ty.is_base_numeric() <==> t.is_integer() || t.is_float(),
{
    match ty {
        TypeExpr::Path(path) => match path.get_ident() {
            Some(name) => target_of_name(name.as_str()),
            None => Target::Other,
        },
        TypeExpr::Other => Target::Other,
    }
}

/// The type that `Option<..>` wraps, where `ty` is such.
pub fn option_inner(ty: &TypeExpr) -> (r: Option<&TypeExpr>)
    ensures
        match r {
            Some(inner) => ty.option_inner() == Some(*inner),
            None => ty.option_inner() is None,
        },
{
    if !is_option_type(ty) {
        return None;
    }
    match ty {
        TypeExpr::Path(path) => match &path.segments[0].arguments {
            PathArgs::AngleBracketed(args) => {
                if args.len() > 0 {
                    match &args[0] {
                        GenericArg::Type(inner) => Some(inner),
                        GenericArg::Other => None,
                    }
                } else {
                    None
                }
            },
            _ => None,
        },
        TypeExpr::Other => None,
    }
}

/// Whether a type is a base numeric scalar, or `Option` of one.
pub fn is_numeric_type(ty: &TypeExpr) -> (r: bool)
    ensures
        r == ty.is_numeric(),
{
    if is_base_numeric(ty) {
        return true;
    }
    match option_inner(ty) {
        Some(inner) => is_base_numeric(inner),
        None => false,
    }
}

/// Whether a type is `Option`, written as that one name.
pub fn is_option_type(ty: &TypeExpr) -> (r: bool)
    ensures
        r == ty.is_option(),
{
    match ty {
        TypeExpr::Path(path) => {
            if path.segments.len() == 1 {
                text_eq(path.segments[0].ident.as_str(), "Option")
            } else {
                false
            }
        },
        TypeExpr::Other => false,
    }
}

/// The scalar type that a value of a field of type `ty` is read as.
pub fn target_of(ty: &TypeExpr) -> (t: Target)
    ensures
        t == ty.target(),
{
    if is_option_type(ty) {
        match option_inner(ty) {
            Some(inner) => scalar_of(inner),
            None => Target::Other,
        }
    } else {
        scalar_of(ty)
    }
}

impl Attr {
    /// Whether the attribute is the library's own, `serde_tuplex`.
    pub open spec fn is_marker(self) -> bool {
        self.path.ident() == Some("serde_tuplex"@)
    }

    /// Whether the attribute holds the word `skip` between its parentheses,
    /// at the top level.
    pub open spec fn has_skip(self) -> bool {
        self.meta matches AttrMeta::List(tokens) && exists|k: int|
            0 <= k < tokens@.len() && is_skip(#[trigger] tokens@[k])
    }
}

/// Whether a token is the word `skip`.
pub open spec fn is_skip(token: AttrToken) -> bool {
    token matches AttrToken::Ident(word) && word@ == "skip"@
}

/// The override that a field's attributes state: that of the first
/// `serde_tuplex` attribute. `Some(false)` where it holds `skip`,
/// `Some(true)` where it does not, `None` where there is no such attribute.
pub open spec fn override_of(attrs: Seq<Attr>) -> Option<bool>
    decreases attrs.len(),
{
    if attrs.len() == 0 {
        None
    } else if attrs[0].is_marker() {
        Some(!attrs[0].has_skip())
    } else {
        override_of(attrs.skip(1))
    }
}

/// How the input of a field of type `ty` is read under an override.
///
/// An override decides, whatever the type: `Some(false)` makes the field
/// strict and `Some(true)` lenient. Without one, a field is lenient where
/// its type is a base numeric scalar or `Option` of one. A lenient field
/// whose type is `Option` allows the absent value.
pub open spec fn classification(ty: TypeExpr, annotation: Option<bool>) -> Classification {
    let lenient = match annotation {
        Some(enabled) => enabled,
        None => ty.is_numeric(),
    };
    if lenient {
        if ty.is_option() {
            Classification::LenientOptional
        } else {
            Classification::Lenient
        }
    } else {
        Classification::Strict
    }
}

impl FieldDef {
    /// Whether the field is read leniently: as its override says, and
    /// without one, where its type is numeric.
    pub open spec fn lenient(self) -> bool {
        match override_of(self.attrs@) {
            Some(enabled) => enabled,
            None => self.ty.is_numeric(),
        }
    }

    /// How the field's input is read: as its declared type and its override
    /// decide.
    pub open spec fn classification(self) -> Classification {
        classification(self.ty, override_of(self.attrs@))
    }
}

/// Whether an attribute holds the word `skip`.
fn attr_has_skip(attr: &Attr) -> (r: bool)
    ensures
        r == attr.has_skip(),
{
    match &attr.meta {
        AttrMeta::List(tokens) => {
            let mut k: usize = 0;
            while k < tokens.len()
                invariant
                    k <= tokens.len(),
                    attr.meta is List,
                    attr.meta->List_0 == tokens,
                    forall|j: int| 0 <= j < k ==> !is_skip(#[trigger] tokens@[j]),
                decreases tokens.len() - k,
            {
                match &tokens[k] {
                    AttrToken::Ident(word) => {
                        if text_eq(word.as_str(), "skip") {
                            assert(is_skip(tokens@[k as int]));
                            return true;
                        }
                    },
                    _ => {},
                }
                k += 1;
            }
            false
        },
        _ => false,
    }
}

/// The override that a field's attributes state.
///
/// `Some(false)` where the first `serde_tuplex` attribute holds `skip`,
/// `Some(true)` where it does not, `None` where the field has no such
/// attribute.
pub fn get_serde_tuplex_attr(field: &FieldDef) -> (r: Option<bool>)
    ensures
        r == override_of(field.attrs@),
{
    let mut i: usize = 0;
    assert(field.attrs@.skip(0) =~= field.attrs@);
    while i < field.attrs.len()
        invariant
            i <= field.attrs.len(),
            override_of(field.attrs@) == override_of(field.attrs@.skip(i as int)),
        decreases field.attrs.len() - i,
    {
        let attr = &field.attrs[i];
        let marked = match attr.path.get_ident() {
            Some(name) => text_eq(name.as_str(), "serde_tuplex"),
            None => false,
        };
        proof {
            let rest = field.attrs@.skip(i as int);
            assert(rest[0] == field.attrs@[i as int]);
            assert(rest.skip(1) =~= field.attrs@.skip(i + 1));
        }
        if marked {
            return Some(!attr_has_skip(attr));
        }
        i += 1;
    }
    None
}

/// Whether a field is read leniently.
pub fn should_be_lenient(field: &FieldDef) -> (r: bool)
    ensures
        r == field.lenient(),
{
    match get_serde_tuplex_attr(field) {
        Some(true) => true,
        Some(false) => false,
        None => is_numeric_type(&field.ty),
    }
}

/// How the input of a field of type `ty` is read under an override:
/// `Some(false)` for `skip`, `Some(true)` for the attribute without it,
/// `None` for no attribute. The answer depends on these two alone.
pub fn classify(ty: &TypeExpr, annotation: Option<bool>) -> (c: Classification)
    ensures
        c == classification(*ty, annotation),
{
    let lenient = match annotation {
        Some(enabled) => enabled,
        None => is_numeric_type(ty),
    };
    if lenient {
        if is_option_type(ty) {
            Classification::LenientOptional
        } else {
            Classification::Lenient
        }
    } else {
        Classification::Strict
    }
}

} // verus!
