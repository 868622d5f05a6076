//! The syntactic shape of a declared type, and its classification as
//! scalar, optional or repeated.
//!
//! Classification goes by the written form alone. A type of the program's
//! own that happens to be written `Option<T>` or `Vec<T>` is taken for the
//! wrapper of that name; nothing here can tell them apart.

use crate::token::{stream_model, text_is, Ident, IdentModel, TokenModel, TokenTree};
use vstd::prelude::*;

verus! {

/// A path such as `std::vec::Vec<T>` or `builder`.
#[derive(Debug, PartialEq, Eq)]
pub struct Path {
    /// The path begins with `::`.
    pub leading_separator: bool,
    pub segments: Vec<PathSegment>,
}

#[derive(Debug, PartialEq, Eq)]
pub struct PathSegment {
    pub name: Ident,
    pub arguments: PathArguments,
}

/// What follows a segment's name.
#[derive(Debug, PartialEq, Eq)]
pub enum PathArguments {
    Absent,
    /// `<A, B>`, or `::<A, B>` where `turbofish` is set.
    AngleBracketed { turbofish: bool, args: Vec<GenericArgument> },
    /// `(A, B) -> C`.
    Parenthesized,
}

/// One argument between angle brackets. Anything but a type (a lifetime, a
/// constant, a binding, a constraint) is `Other`.
#[derive(Debug, PartialEq, Eq)]
pub enum GenericArgument {
    Type(TypeExpr),
    Other,
}

/// The form of a type as far as classification looks.
#[derive(Debug, PartialEq, Eq)]
pub enum TypeForm {
    /// A path; `qualified` where it begins with `<T as Trait>`.
    Path { qualified: bool, path: Path },
    /// Any other type: a reference, a tuple, an array, ...
    Other,
}

/// A type as written: its tokens, and its form.
#[derive(Debug, PartialEq, Eq)]
pub struct TypeExpr {
    pub tokens: Vec<TokenTree>,
    pub form: TypeForm,
}

pub struct PathModel {
    pub leading_separator: bool,
    pub segments: Seq<SegmentModel>,
}

pub struct SegmentModel {
    pub name: IdentModel,
    pub arguments: ArgumentsModel,
}

pub enum ArgumentsModel {
    Absent,
    AngleBracketed { turbofish: bool, args: Seq<ArgumentModel> },
    Parenthesized,
}

pub enum ArgumentModel {
    Type(TypeModel),
    Other,
}

pub enum FormModel {
    Path { qualified: bool, path: PathModel },
    Other,
}

/// The mathematical value of a type as written.
pub struct TypeModel {
    pub tokens: Seq<TokenModel>,
    pub form: FormModel,
}

pub open spec fn type_model(t: TypeExpr) -> TypeModel
    decreases t,
{
    TypeModel { tokens: stream_model(t.tokens@), form: form_model(t.form) }
}

pub open spec fn form_model(f: TypeForm) -> FormModel
    decreases f,
{
    match f {
        TypeForm::Path { qualified, path } => FormModel::Path { qualified, path: path_model(path) },
        TypeForm::Other => FormModel::Other,
    }
}

pub open spec fn path_model(p: Path) -> PathModel
    decreases p,
{
    PathModel {
        leading_separator: p.leading_separator,
        segments: Seq::new(
            p.segments@.len(),
            |i: int|
                if 0 <= i < p.segments@.len() {
                    segment_model(p.segments@[i])
                } else {
                    arbitrary()
                },
        ),
    }
}

pub open spec fn segment_model(s: PathSegment) -> SegmentModel
    decreases s,
{
    SegmentModel { name: s.name@, arguments: arguments_model(s.arguments) }
}

pub open spec fn arguments_model(a: PathArguments) -> ArgumentsModel
    decreases a,
{
    match a {
        PathArguments::Absent => ArgumentsModel::Absent,
        PathArguments::AngleBracketed { turbofish, args } => ArgumentsModel::AngleBracketed {
            turbofish,
            args: Seq::new(
                args@.len(),
                |i: int| if 0 <= i < args@.len() { argument_model(args@[i]) } else { arbitrary() },
            ),
        },
        PathArguments::Parenthesized => ArgumentsModel::Parenthesized,
    }
}

pub open spec fn argument_model(g: GenericArgument) -> ArgumentModel
    decreases g,
{
    match g {
        GenericArgument::Type(t) => ArgumentModel::Type(type_model(t)),
        GenericArgument::Other => ArgumentModel::Other,
    }
}

impl View for TypeExpr {
    type V = TypeModel;

    open spec fn view(&self) -> TypeModel {
        type_model(*self)
    }
}

impl View for Path {
    type V = PathModel;

    open spec fn view(&self) -> PathModel {
        path_model(*self)
    }
}

/// A field's type, classified.
#[derive(Debug, PartialEq, Eq)]
pub enum TypeDescriptor<'a> {
    /// Any type that is neither of the two below; the type itself.
    Scalar(&'a TypeExpr),
    /// `Option<Inner>`; the inner type.
    Optional(&'a TypeExpr),
    /// `Vec<Inner>`; the inner type.
    Repeated(&'a TypeExpr),
}

pub enum DescriptorModel {
    Scalar(TypeModel),
    Optional(TypeModel),
    Repeated(TypeModel),
}

impl<'a> View for TypeDescriptor<'a> {
    type V = DescriptorModel;

    open spec fn view(&self) -> DescriptorModel {
        match *self {
            TypeDescriptor::Scalar(t) => DescriptorModel::Scalar(t@),
            TypeDescriptor::Optional(t) => DescriptorModel::Optional(t@),
            TypeDescriptor::Repeated(t) => DescriptorModel::Repeated(t@),
        }
    }
}

/// Whether a path is the single plain word `word`: no leading separator,
/// one segment, no arguments.
pub open spec fn path_is_word(p: PathModel, word: Seq<char>) -> bool {
    &&& !p.leading_separator
    &&& p.segments.len() == 1
    &&& p.segments[0].arguments is Absent
    &&& p.segments[0].name.name == word
}

/// The inner type of `wrapper<Inner>`: the type is an unqualified path of a
/// single segment named `wrapper`, without leading separator, whose
/// arguments stand in angle brackets without `::` before them and are
/// exactly one type.
pub open spec fn wrapped(t: TypeModel, wrapper: Seq<char>) -> Option<TypeModel> {
    match t.form {
        FormModel::Path { qualified, path } => {
            if !qualified && !path.leading_separator && path.segments.len() == 1
                && path.segments[0].name.name == wrapper {
                match path.segments[0].arguments {
                    ArgumentsModel::AngleBracketed { turbofish, args } => {
                        if !turbofish && args.len() == 1 {
                            match args[0] {
                                ArgumentModel::Type(inner) => Some(inner),
                                ArgumentModel::Other => None,
                            }
                        } else {
                            None
                        }
                    },
                    _ => None,
                }
            } else {
                None
            }
        },
        FormModel::Other => None,
    }
}

/// Whether a type is written as one of the two recognized wrappers.
pub open spec fn is_wrapper(t: TypeModel) -> bool {
    wrapped(t, "Option"@) is Some || wrapped(t, "Vec"@) is Some
}

/// The classification. Only the outermost wrapper counts, and only where
/// what it wraps is not itself a wrapper: a wrapper of a wrapper is scalar
/// as a whole.
pub open spec fn classification(t: TypeModel) -> DescriptorModel {
    match wrapped(t, "Vec"@) {
        Some(inner) => if is_wrapper(inner) {
            DescriptorModel::Scalar(t)
        } else {
            DescriptorModel::Repeated(inner)
        },
        None => match wrapped(t, "Option"@) {
            Some(inner) => if is_wrapper(inner) {
                DescriptorModel::Scalar(t)
            } else {
                DescriptorModel::Optional(inner)
            },
            None => DescriptorModel::Scalar(t),
        },
    }
}

/// Whether a path is the single plain word `word`.
pub fn path_is_ident(path: &Path, word: &str) -> (same: bool)
    ensures
        same == path_is_word(path@, word@),
{
    if path.leading_separator || path.segments.len() != 1 {
        return false;
    }
    let segment = &path.segments[0];
    match &segment.arguments {
        PathArguments::Absent => text_is(&segment.name.name, word),
        _ => false,
    }
}

/// The inner type of `ident_name<Inner>`, if the type is written so.
pub fn get_field_type<'ty>(field_type: &'ty TypeExpr, ident_name: &str) -> (inner: Option<
    &'ty TypeExpr,
>)
    ensures
        match inner {
            Some(t) => wrapped(field_type@, ident_name@) == Some(t@),
            None => wrapped(field_type@, ident_name@) is None,
        },
{
    let path = match &field_type.form {
        TypeForm::Path { qualified, path } => {
            if *qualified {
                return None;
            }
            path
        },
        TypeForm::Other => {
            return None;
        },
    };
    if path.leading_separator || path.segments.len() != 1 {
        return None;
    }
    let segment = &path.segments[0];
    if !text_is(&segment.name.name, ident_name) {
        return None;
    }
    let args = match &segment.arguments {
        PathArguments::AngleBracketed { turbofish, args } => {
            if *turbofish {
                return None;
            }
            args
        },
        _ => {
            return None;
        },
    };
    if args.len() != 1 {
        return None;
    }
    match &args[0] {
        GenericArgument::Type(sub_field_type) => Some(sub_field_type),
        GenericArgument::Other => None,
    }
}

/// The inner type of `Option<Inner>`.
pub fn get_optional_field_type<'ty>(field_type: &'ty TypeExpr) -> (inner: Option<&'ty TypeExpr>)
    ensures
        match inner {
            Some(t) => wrapped(field_type@, "Option"@) == Some(t@),
            None => wrapped(field_type@, "Option"@) is None,
        },
{
    get_field_type(field_type, "Option")
}

/// The inner type of `Vec<Inner>`.
pub fn get_vec_field_type<'ty>(field_type: &'ty TypeExpr) -> (inner: Option<&'ty TypeExpr>)
    ensures
        match inner {
            Some(t) => wrapped(field_type@, "Vec"@) == Some(t@),
            None => wrapped(field_type@, "Vec"@) is None,
        },
{
    get_field_type(field_type, "Vec")
}

/// Whether a type is written as one of the two recognized wrappers.
pub fn is_wrapper_type(field_type: &TypeExpr) -> (yes: bool)
    ensures
        yes == is_wrapper(field_type@),
{
    get_optional_field_type(field_type).is_some() || get_vec_field_type(field_type).is_some()
}

/// Classifies a declared type.
pub fn classify<'ty>(field_type: &'ty TypeExpr) -> (descriptor: TypeDescriptor<'ty>)
    ensures
        descriptor@ == classification(field_type@),
{
    match get_vec_field_type(field_type) {
        Some(inner) => {
            if is_wrapper_type(inner) {
                TypeDescriptor::Scalar(field_type)
            } else {
                TypeDescriptor::Repeated(inner)
            }
        },
        None => match get_optional_field_type(field_type) {
            Some(inner) => {
                if is_wrapper_type(inner) {
                    TypeDescriptor::Scalar(field_type)
                } else {
                    TypeDescriptor::Optional(inner)
                }
            },
            None => TypeDescriptor::Scalar(field_type),
        },
    }
}

} // verus!
