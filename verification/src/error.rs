//! The error that stops an expansion before any output exists.

use crate::token::Span;
use vstd::prelude::*;

verus! {

/// What was wrong with the input's shape.
#[derive(Clone, Copy, Debug, PartialEq, Eq, Hash, Structural)]
pub enum Reason {
    /// The derive target is an enum or a union.
    ExpectedStruct,
    /// The derive target is a struct without named fields.
    ExpectedNamedFields,
    /// A `builder` attribute on a repeated field is not `builder(each = "...")`.
    MalformedEach,
    /// A `builder` attribute stands on a field that is not repeated.
    MisplacedEach,
    /// A range header does not begin with a plain identifier.
    ExpectedIdentifier,
    /// The loop variable is not followed by the word `in`.
    ExpectedIn,
    /// A bound of the range is not an integer literal that fits a `usize`.
    ExpectedIntegerLiteral,
    /// The two bounds are not separated by `..`.
    ExpectedRange,
    /// The range is not followed by a body in curly braces.
    ExpectedBraces,
    /// Something follows the body.
    UnexpectedToken,
    /// The range starts after its end.
    DescendingRange,
}

/// The text shown for each reason.
pub open spec fn reason_text(reason: Reason) -> Seq<char> {
    match reason {
        Reason::ExpectedStruct => "expected struct"@,
        Reason::ExpectedNamedFields => "expected named fields"@,
        Reason::MalformedEach => "expected builder(each = \"...\")"@,
        Reason::MisplacedEach => "builder(each = \"...\") is only allowed on a Vec field"@,
        Reason::ExpectedIdentifier => "expected identifier"@,
        Reason::ExpectedIn => "expected `in`"@,
        Reason::ExpectedIntegerLiteral => "expected integer literal"@,
        Reason::ExpectedRange => "expected `..`"@,
        Reason::ExpectedBraces => "expected curly braces"@,
        Reason::UnexpectedToken => "unexpected token"@,
        Reason::DescendingRange => "range start is greater than range end"@,
    }
}

/// A malformed input, with the position the diagnostic is bound to.
#[derive(Clone, Copy, Debug, PartialEq, Eq, Hash, Structural)]
pub struct StructuralError {
    pub reason: Reason,
    pub position: Span,
}

impl StructuralError {
    /// The diagnostic's text.
    pub fn message(&self) -> (text: String)
        ensures
            text@ == reason_text(self.reason),
    {
        match self.reason {
            Reason::ExpectedStruct => "expected struct".to_owned(),
            Reason::ExpectedNamedFields => "expected named fields".to_owned(),
            Reason::MalformedEach => "expected builder(each = \"...\")".to_owned(),
            Reason::MisplacedEach => "builder(each = \"...\") is only allowed on a Vec field".to_owned(),
            Reason::ExpectedIdentifier => "expected identifier".to_owned(),
            Reason::ExpectedIn => "expected `in`".to_owned(),
            Reason::ExpectedIntegerLiteral => "expected integer literal".to_owned(),
            Reason::ExpectedRange => "expected `..`".to_owned(),
            Reason::ExpectedBraces => "expected curly braces".to_owned(),
            Reason::UnexpectedToken => "unexpected token".to_owned(),
            Reason::DescendingRange => "range start is greater than range end".to_owned(),
        }
    }
}

} // verus!
