//! The builder synthesizer: from the declaration of an aggregate to the
//! code of its builder.

use crate::classify::{
    classification, classify, path_is_ident, path_is_word, Path, PathModel, TypeDescriptor,
    TypeExpr, TypeModel,
};
use crate::error::{Reason, StructuralError};
use crate::lexeme::{
    begins_like_string, begins_string, is_identifier, known_identifier, known_string,
    parse_string_literal, quoted_text,
};
use crate::synth::{aggregate, synthesis, AggregateDeclaration};
use crate::text::{missing_value_message, trim_quotes, trimmed};
use crate::token::{
    is_word, stream_agrees, stream_model, text_is, Delimiter, Ident, IdentModel, Span, TokenModel,
    TokenTree,
};
use vstd::prelude::*;

verus! {

/// One attribute of a field: `#[path tokens]`.
#[derive(Debug, PartialEq, Eq)]
pub struct Attribute {
    pub path: Path,
    pub tokens: Vec<TokenTree>,
}

/// One named field as declared.
#[derive(Debug, PartialEq, Eq)]
pub struct Field {
    pub name: Ident,
    pub ty: TypeExpr,
    pub attributes: Vec<Attribute>,
}

/// What kind of item the derive was attached to.
#[derive(Debug, PartialEq, Eq)]
pub enum Shape {
    NamedStruct(Vec<Field>),
    TupleStruct,
    UnitStruct,
    Enum,
    Union,
}

/// The item the derive was attached to.
#[derive(Debug, PartialEq, Eq)]
pub struct Declaration {
    pub name: Ident,
    pub shape: Shape,
}

pub struct AttributeModel {
    pub path: PathModel,
    pub tokens: Seq<TokenModel>,
}

pub struct FieldModel {
    pub name: IdentModel,
    pub ty: TypeModel,
    pub attributes: Seq<AttributeModel>,
}

pub enum ShapeModel {
    NamedStruct(Seq<FieldModel>),
    TupleStruct,
    UnitStruct,
    Enum,
    Union,
}

pub struct DeclarationModel {
    pub name: IdentModel,
    pub shape: ShapeModel,
}

impl View for Attribute {
    type V = AttributeModel;

    open spec fn view(&self) -> AttributeModel {
        AttributeModel { path: self.path@, tokens: stream_model(self.tokens@) }
    }
}

/// The values of a field's attributes, in order.
pub open spec fn attributes_model(attributes: Seq<Attribute>) -> Seq<AttributeModel> {
    Seq::new(attributes.len(), |i: int| attributes[i]@)
}

impl View for Field {
    type V = FieldModel;

    open spec fn view(&self) -> FieldModel {
        FieldModel {
            name: self.name@,
            ty: self.ty@,
            attributes: attributes_model(self.attributes@),
        }
    }
}

/// The values of the fields, in order.
pub open spec fn fields_model(fields: Seq<Field>) -> Seq<FieldModel> {
    Seq::new(fields.len(), |i: int| fields[i]@)
}

impl View for Shape {
    type V = ShapeModel;

    open spec fn view(&self) -> ShapeModel {
        match *self {
            Shape::NamedStruct(fields) => ShapeModel::NamedStruct(fields_model(fields@)),
            Shape::TupleStruct => ShapeModel::TupleStruct,
            Shape::UnitStruct => ShapeModel::UnitStruct,
            Shape::Enum => ShapeModel::Enum,
            Shape::Union => ShapeModel::Union,
        }
    }
}

impl View for Declaration {
    type V = DeclarationModel;

    open spec fn view(&self) -> DeclarationModel {
        DeclarationModel { name: self.name@, shape: self.shape@ }
    }
}

/// The annotation that names the element setter of a repeated field.
#[derive(Clone, Debug, PartialEq, Eq)]
pub struct EachAlias {
    pub element_setter_name: Ident,
}

/// What a field's attributes say about an element setter.
#[derive(Debug, PartialEq, Eq)]
pub enum AttributeKind {
    /// The field has no `builder` attribute.
    Absent,
    EachAlias(EachAlias),
    Malformed(StructuralError),
}

pub enum AliasModel {
    Absent,
    EachAlias(IdentModel),
    Malformed(StructuralError),
}

impl View for AttributeKind {
    type V = AliasModel;

    open spec fn view(&self) -> AliasModel {
        match *self {
            AttributeKind::Absent => AliasModel::Absent,
            AttributeKind::EachAlias(alias) => AliasModel::EachAlias(alias.element_setter_name@),
            AttributeKind::Malformed(e) => AliasModel::Malformed(e),
        }
    }
}

/// The first attribute whose path is the plain word `builder`.
pub open spec fn builder_attribute(attributes: Seq<AttributeModel>) -> Option<AttributeModel>
    decreases attributes.len(),
{
    if attributes.len() == 0 {
        None
    } else if path_is_word(attributes[0].path, "builder"@) {
        Some(attributes[0])
    } else {
        builder_attribute(attributes.skip(1))
    }
}

/// The position of a `builder` attribute: that of the word `builder`.
pub open spec fn attribute_position(a: AttributeModel) -> Span {
    a.path.segments[0].name.span
}

/// What stands between the parentheses of `builder(...)`, where the
/// attribute's tokens are exactly one group in parentheses.
pub open spec fn arguments(a: AttributeModel) -> Option<Seq<TokenModel>> {
    if a.tokens.len() == 1 {
        match a.tokens[0] {
            TokenModel::Group { delimiter, stream, .. } => if delimiter == Delimiter::Parenthesis {
                Some(stream)
            } else {
                None
            },
            _ => None,
        }
    } else {
        None
    }
}

/// Where a malformed `builder` attribute is reported: at the word that
/// begins its arguments, or at the attribute where there is no such word.
pub open spec fn keyword_position(a: AttributeModel) -> Span {
    match arguments(a) {
        Some(inner) => if inner.len() > 0 && inner[0] is Ident {
            inner[0].span()
        } else {
            attribute_position(a)
        },
        None => attribute_position(a),
    }
}

/// Whether a tree is the equals sign.
pub open spec fn is_equals(t: TokenModel) -> bool {
    t matches TokenModel::Punct { ch, .. } && ch == '='
}

/// What the lexer answered about one field.
#[derive(Clone, Debug, PartialEq, Eq)]
pub struct FieldAnswers {
    /// The string that the literal in `builder(each = <literal>)` denotes,
    /// if it is a string literal.
    pub alias_value: Option<String>,
    /// Whether that string, without the quotes around it, is an identifier.
    pub alias_accepted: bool,
    /// The text of a string literal that denotes the message for the
    /// field when it is missing.
    pub message_literal: String,
}

pub struct AnswersModel {
    pub alias_value: Option<Seq<char>>,
    pub alias_accepted: bool,
    pub message_literal: Seq<char>,
}

impl View for FieldAnswers {
    type V = AnswersModel;

    open spec fn view(&self) -> AnswersModel {
        AnswersModel {
            alias_value: self.alias_value.deep_view(),
            alias_accepted: self.alias_accepted,
            message_literal: self.message_literal@,
        }
    }
}

/// The values of the answers, in order.
pub open spec fn answers_model(answers: Seq<FieldAnswers>) -> Seq<AnswersModel> {
    Seq::new(answers.len(), |i: int| answers[i]@)
}

/// The answers of a lexer that was asked nothing.
pub open spec fn no_answers() -> AnswersModel {
    AnswersModel { alias_value: None, alias_accepted: false, message_literal: Seq::empty() }
}

/// The number of named fields of a declaration.
pub open spec fn field_count(d: DeclarationModel) -> nat {
    match d.shape {
        ShapeModel::NamedStruct(fields) => fields.len(),
        _ => 0,
    }
}

/// The text of the literal in `builder(each = <literal>)`: the arguments
/// are exactly the word `each`, an equals sign and a literal that begins as
/// a string does.
pub open spec fn alias_literal(a: AttributeModel) -> Option<Seq<char>> {
    match arguments(a) {
        Some(inner) => if inner.len() == 3 && is_word(inner[0], "each"@) && is_equals(inner[1]) {
            match inner[2] {
                TokenModel::Literal { text, .. } => if begins_string(text) {
                    Some(text)
                } else {
                    None
                },
                _ => None,
            }
        } else {
            None
        },
        None => None,
    }
}

/// The text that the lexer is asked about for a field: the literal of the
/// first `builder` attribute of a repeated field, where the attribute has
/// the right shape. For any other field nothing is asked.
pub open spec fn alias_candidate(f: FieldModel) -> Option<Seq<char>> {
    match builder_attribute(f.attributes) {
        Some(a) => if classification(f.ty) is Repeated {
            alias_literal(a)
        } else {
            None
        },
        None => None,
    }
}

/// The element setter's name in `builder(each = "name")`, where `value` is
/// the string that the lexer read from the literal and `accepted` says
/// whether that string, without the quotes around it, is an identifier.
pub open spec fn alias_name(a: AttributeModel, value: Option<Seq<char>>, accepted: bool) -> Option<
    Seq<char>,
> {
    if alias_literal(a) is Some && value is Some && accepted {
        Some(trimmed(value->0))
    } else {
        None
    }
}

/// What a `builder` attribute on a repeated field says.
pub open spec fn each_argument(a: AttributeModel, value: Option<Seq<char>>, accepted: bool)
    -> AliasModel {
    match alias_name(a, value, accepted) {
        Some(name) => AliasModel::EachAlias(IdentModel { name, span: Span::CallSite }),
        None => AliasModel::Malformed(
            StructuralError { reason: Reason::MalformedEach, position: keyword_position(a) },
        ),
    }
}

/// What a field's attributes say about an element setter, given the
/// lexer's answers. Only the first `builder` attribute is looked at, and
/// its arguments only on a repeated field: on any other field its presence
/// is the error.
pub open spec fn alias_of(f: FieldModel, value: Option<Seq<char>>, accepted: bool) -> AliasModel {
    match builder_attribute(f.attributes) {
        None => AliasModel::Absent,
        Some(a) => if classification(f.ty) is Repeated {
            each_argument(a, value, accepted)
        } else {
            AliasModel::Malformed(
                StructuralError { reason: Reason::MisplacedEach, position: attribute_position(a) },
            )
        },
    }
}

/// What a field's attributes say, given the answers for the field.
pub open spec fn alias_with(f: FieldModel, answers: AnswersModel) -> AliasModel {
    alias_of(f, answers.alias_value, answers.alias_accepted)
}

/// The error of the first field from `from` on whose attributes are
/// malformed.
pub open spec fn alias_error_from(
    fields: Seq<FieldModel>,
    answers: Seq<AnswersModel>,
    from: int,
) -> Option<StructuralError>
    decreases fields.len() - from,
{
    if from < 0 || from >= fields.len() {
        None
    } else {
        match alias_with(fields[from], answers[from]) {
            AliasModel::Malformed(e) => Some(e),
            _ => alias_error_from(fields, answers, from + 1),
        }
    }
}

/// The error of the first field whose attributes are malformed.
pub open spec fn alias_error(fields: Seq<FieldModel>, answers: Seq<AnswersModel>) -> Option<
    StructuralError,
> {
    alias_error_from(fields, answers, 0)
}

/// What the lexer answers about a field's alias, where that is known: the
/// string that the literal denotes, and whether that string, without the
/// quotes around it, is an identifier. Where nothing is asked there is no
/// string and nothing is accepted.
pub open spec fn decided_alias(f: FieldModel) -> Option<(Option<Seq<char>>, bool)> {
    match alias_candidate(f) {
        None => Some((None, false)),
        Some(text) => match known_string(text) {
            Some(value) => match known_identifier(trimmed(value)) {
                Some(accepted) => Some((Some(value), accepted)),
                None => None,
            },
            None => None,
        },
    }
}

/// Whether answers about a field's alias are those that the lexer can
/// give: where they are known, they are those.
pub open spec fn alias_fits(f: FieldModel, value: Option<Seq<char>>, accepted: bool) -> bool {
    decided_alias(f) matches Some(known) ==> value == known.0 && accepted == known.1
}

/// Whether answers are those that the lexer can give about a declaration:
/// one for each named field, and about each alias the known ones.
pub open spec fn answers_fit(d: DeclarationModel, answers: Seq<AnswersModel>) -> bool {
    match d.shape {
        ShapeModel::NamedStruct(fields) => answers.len() == fields.len() && forall|i: int|
            0 <= i < fields.len() ==> alias_fits(
                fields[i],
                (#[trigger] answers[i]).alias_value,
                answers[i].alias_accepted,
            ),
        _ => answers.len() == 0,
    }
}

/// Whether the lexer's answers about every alias of a declaration are
/// known.
pub open spec fn aliases_decided(d: DeclarationModel) -> bool {
    match d.shape {
        ShapeModel::NamedStruct(fields) => forall|i: int|
            0 <= i < fields.len() ==> decided_alias(#[trigger] fields[i]) is Some,
        _ => true,
    }
}

/// The known answers about the aliases of a declaration, with no message
/// literals.
pub open spec fn decided_answers(d: DeclarationModel) -> Seq<AnswersModel> {
    match d.shape {
        ShapeModel::NamedStruct(fields) => Seq::new(
            fields.len(),
            |i: int|
                match decided_alias(fields[i]) {
                    Some(known) => AnswersModel {
                        alias_value: known.0,
                        alias_accepted: known.1,
                        message_literal: Seq::empty(),
                    },
                    None => no_answers(),
                },
        ),
        _ => Seq::empty(),
    }
}

/// Whether an outcome succeeds or fails as expected: the same error, or
/// success.
pub open spec fn same_outcome<A, B>(
    result: Result<A, StructuralError>,
    expected: Result<B, StructuralError>,
) -> bool {
    match expected {
        Ok(_) => result is Ok,
        Err(e) => result == Err::<A, StructuralError>(e),
    }
}

/// The first malformed field depends on the answers about the aliases
/// alone.
pub proof fn lemma_alias_error_depends_on_aliases(
    fields: Seq<FieldModel>,
    first: Seq<AnswersModel>,
    second: Seq<AnswersModel>,
    from: int,
)
    requires
        forall|i: int|
            0 <= i < fields.len() ==> (#[trigger] first[i]).alias_value == second[i].alias_value
                && first[i].alias_accepted == second[i].alias_accepted,
    ensures
        alias_error_from(fields, first, from) == alias_error_from(fields, second, from),
    decreases fields.len() - from,
{
    if 0 <= from < fields.len() {
        assert(first[from].alias_value == second[from].alias_value);
        lemma_alias_error_depends_on_aliases(fields, first, second, from + 1);
    }
}

/// The first attribute whose path is the plain word `builder`.
pub fn find_builder_attribute(attributes: &Vec<Attribute>) -> (found: Option<&Attribute>)
    ensures
        match found {
            Some(a) => builder_attribute(attributes_model(attributes@)) == Some(a@)
                && path_is_word(a@.path, "builder"@),
            None => builder_attribute(attributes_model(attributes@)) is None,
        },
{
    let ghost all = attributes_model(attributes@);
    let mut i: usize = 0;
    assert(all.skip(0) =~= all);
    while i < attributes.len()
        invariant
            i <= attributes.len(),
            all == attributes_model(attributes@),
            builder_attribute(all) == builder_attribute(all.skip(i as int)),
        decreases attributes.len() - i,
    {
        if path_is_ident(&attributes[i].path, "builder") {
            return Some(&attributes[i]);
        }
        assert(all.skip(i as int).skip(1) =~= all.skip(i as int + 1));
        i += 1;
    }
    None
}

/// The argument trees of `builder(...)`.
fn attribute_arguments(attribute: &Attribute) -> (inner: Option<&Vec<TokenTree>>)
    ensures
        match inner {
            Some(trees) => arguments(attribute@) == Some(stream_model(trees@)),
            None => arguments(attribute@) is None,
        },
{
    if attribute.tokens.len() != 1 {
        return None;
    }
    match &attribute.tokens[0] {
        TokenTree::Group(g) => {
            if g.delimiter == Delimiter::Parenthesis {
                Some(&g.stream)
            } else {
                None
            }
        },
        _ => None,
    }
}

/// Where a malformed `builder` attribute is reported.
fn position_of_keyword(attribute: &Attribute) -> (position: Span)
    requires
        path_is_word(attribute@.path, "builder"@),
    ensures
        position == keyword_position(attribute@),
{
    match attribute_arguments(attribute) {
        Some(inner) => {
            if inner.len() > 0 {
                match &inner[0] {
                    TokenTree::Ident(keyword) => {
                        return keyword.span;
                    },
                    _ => {},
                }
            }
        },
        None => {},
    }
    attribute.path.segments[0].name.span
}

/// The text of the literal in `builder(each = <literal>)`.
fn literal_of_alias(attribute: &Attribute) -> (text: Option<&str>)
    ensures
        match text {
            Some(t) => alias_literal(attribute@) == Some(t@),
            None => alias_literal(attribute@) is None,
        },
{
    let inner = match attribute_arguments(attribute) {
        Some(inner) => inner,
        None => {
            return None;
        },
    };
    if inner.len() != 3 {
        return None;
    }
    let keyword_fits = match &inner[0] {
        TokenTree::Ident(keyword) => text_is(&keyword.name, "each"),
        _ => false,
    };
    let equals_fits = match &inner[1] {
        TokenTree::Punct(p) => p.ch == '=',
        _ => false,
    };
    if !keyword_fits || !equals_fits {
        return None;
    }
    match &inner[2] {
        TokenTree::Literal(literal) => {
            if begins_like_string(literal.text.as_str()) {
                Some(literal.text.as_str())
            } else {
                None
            }
        },
        _ => None,
    }
}

/// The text that the lexer is asked about for a field.
pub fn alias_text<'a>(declared_type: &TypeDescriptor, field: &'a Field) -> (text: Option<&'a str>)
    requires
        declared_type@ == classification(field@.ty),
    ensures
        match text {
            Some(t) => alias_candidate(field@) == Some(t@),
            None => alias_candidate(field@) is None,
        },
{
    match find_builder_attribute(&field.attributes) {
        Some(attribute) => match declared_type {
            TypeDescriptor::Repeated(_) => literal_of_alias(attribute),
            _ => None,
        },
        None => None,
    }
}

/// Asks the lexer about a field's alias: what string the literal denotes,
/// and whether that string, without the quotes around it, is an
/// identifier. Where there is no literal to ask about, nothing is asked.
fn alias_answers(declared_type: &TypeDescriptor, field: &Field) -> (answers: (Option<String>, bool))
    requires
        declared_type@ == classification(field@.ty),
    ensures
        alias_fits(field@, answers.0.deep_view(), answers.1),
{
    match alias_text(declared_type, field) {
        Some(text) => {
            let value = parse_string_literal(text);
            let accepted = match &value {
                Some(string) => is_identifier(trim_quotes(string.as_str()).as_str()),
                None => false,
            };
            (value, accepted)
        },
        None => (None, false),
    }
}

/// Reads the element setter's name off a field's attributes, given what the
/// lexer answered about the alias literal.
pub fn resolve_each_with(
    declared_type: &TypeDescriptor,
    field: &Field,
    alias_value: &Option<String>,
    alias_accepted: bool,
) -> (kind: AttributeKind)
    requires
        declared_type@ == classification(field@.ty),
    ensures
        kind@ == alias_of(field@, alias_value.deep_view(), alias_accepted),
{
    let attribute = match find_builder_attribute(&field.attributes) {
        Some(attribute) => attribute,
        None => {
            return AttributeKind::Absent;
        },
    };
    match declared_type {
        TypeDescriptor::Repeated(_) => {
            let fits = literal_of_alias(attribute).is_some() && alias_accepted;
            match alias_value {
                Some(value) if fits => AttributeKind::EachAlias(
                    EachAlias {
                        element_setter_name: Ident {
                            name: trim_quotes(value.as_str()),
                            span: Span::CallSite,
                        },
                    },
                ),
                _ => AttributeKind::Malformed(
                    StructuralError {
                        reason: Reason::MalformedEach,
                        position: position_of_keyword(attribute),
                    },
                ),
            }
        },
        _ => AttributeKind::Malformed(
            StructuralError {
                reason: Reason::MisplacedEach,
                position: attribute.path.segments[0].name.span,
            },
        ),
    }
}

/// Reads the element setter's name off a field's attributes. The lexer is
/// asked about the alias literal where there is one, and the result is the
/// grammar's for what it answered. Where its answers are known, for a plain
/// string that holds a plain word and where nothing is asked, that is one
/// result.
pub fn resolve_each(declared_type: &TypeDescriptor, field: &Field) -> (kind: AttributeKind)
    requires
        declared_type@ == classification(field@.ty),
    ensures
        exists|value: Option<Seq<char>>, accepted: bool|
            alias_fits(field@, value, accepted) && kind@ == #[trigger] alias_of(
                field@,
                value,
                accepted,
            ),
        decided_alias(field@) matches Some(known) ==> kind@ == alias_of(
            field@,
            known.0,
            known.1,
        ),
{
    let (value, accepted) = alias_answers(declared_type, field);
    let kind = resolve_each_with(declared_type, field, &value, accepted);
    assert(kind@ == alias_of(field@, value.deep_view(), accepted));
    kind
}

/// Asks the lexer everything about one field: about its alias, and how
/// the message for the field when it is missing is written as a literal.
pub fn gather_field_answers(field: &Field) -> (answers: FieldAnswers)
    ensures
        alias_fits(field@, answers@.alias_value, answers@.alias_accepted),
{
    let declared_type = classify(&field.ty);
    let (alias_value, alias_accepted) = alias_answers(&declared_type, field);
    let message = missing_value_message(field.name.name.as_str());
    FieldAnswers { alias_value, alias_accepted, message_literal: quoted_text(message.as_str()) }
}

/// Asks the lexer everything about a declaration: one set of answers for
/// each named field, in order.
pub fn gather_answers(declaration: &Declaration) -> (answers: Vec<FieldAnswers>)
    ensures
        answers@.len() == field_count(declaration@),
        answers_fit(declaration@, answers_model(answers@)),
{
    let mut answers: Vec<FieldAnswers> = Vec::new();
    match &declaration.shape {
        Shape::NamedStruct(fields) => {
            let mut i: usize = 0;
            while i < fields.len()
                invariant
                    i <= fields.len(),
                    answers@.len() == i,
                    forall|k: int|
                        0 <= k < i ==> alias_fits(
                            fields@[k]@,
                            (#[trigger] answers@[k])@.alias_value,
                            answers@[k]@.alias_accepted,
                        ),
                decreases fields.len() - i,
            {
                answers.push(gather_field_answers(&fields[i]));
                i += 1;
            }
            assert forall|k: int| 0 <= k < fields@.len() implies alias_fits(
                fields_model(fields@)[k],
                (#[trigger] answers_model(answers@)[k]).alias_value,
                answers_model(answers@)[k].alias_accepted,
            ) by {
                assert(answers_model(answers@)[k] == answers@[k]@);
            }
        },
        _ => {},
    }
    answers
}

/// What the derive makes of a declaration, given the lexer's answers for
/// each field.
pub open spec fn derive_result(d: DeclarationModel, answers: Seq<AnswersModel>) -> Result<
    Seq<TokenModel>,
    StructuralError,
> {
    match aggregate(d, answers) {
        Ok(a) => Ok(synthesis(a)),
        Err(e) => Err(e),
    }
}

/// Derives the builder of a declaration, given the lexer's answers for each
/// of its fields: the declaration is validated, and the builder type, the
/// entry point and the builder's setters and finalizer are generated. A
/// declaration that is not a struct with named fields, or a field with
/// malformed attributes, gives the error and no code.
pub fn derive_with(input: &Declaration, answers: &Vec<FieldAnswers>) -> (result: Result<
    Vec<TokenTree>,
    StructuralError,
>)
    requires
        input@.shape is NamedStruct ==> answers@.len() == field_count(input@),
    ensures
        stream_agrees(result, derive_result(input@, answers_model(answers@))),
{
    match AggregateDeclaration::new_with(input, answers) {
        Ok(validated) => Ok(validated.synthesize()),
        Err(e) => Err(e),
    }
}

/// Derives the builder of a declaration. The lexer is asked about each
/// field, and the code or the error is what the grammar gives for its
/// answers. Where its answers about every alias are known, for plain
/// strings that hold plain words and where there is no alias, they decide
/// between code and error, and the code is then the grammar's but for the
/// message literals. A declaration of the wrong shape gives its error
/// whatever the answers.
pub fn derive(input: &Declaration) -> (result: Result<Vec<TokenTree>, StructuralError>)
    ensures
        exists|answers: Seq<AnswersModel>|
            answers_fit(input@, answers) && stream_agrees(
                result,
                #[trigger] derive_result(input@, answers),
            ),
        aliases_decided(input@) ==> same_outcome(
            result,
            derive_result(input@, decided_answers(input@)),
        ),
{
    let answers = gather_answers(input);
    let result = derive_with(input, &answers);
    proof {
        let given = answers_model(answers@);
        assert(stream_agrees(result, derive_result(input@, given)));
        if aliases_decided(input@) {
            lemma_outcome_of_decided_aliases(input@, given);
        }
    }
    result
}

/// Where the lexer's answers about every alias of a declaration are known,
/// answers that fit decide as the known ones do whether the declaration is
/// accepted, and with which error it is refused.
pub proof fn lemma_outcome_of_decided_aliases(d: DeclarationModel, answers: Seq<AnswersModel>)
    requires
        aliases_decided(d),
        answers_fit(d, answers),
    ensures
        same_outcome(aggregate(d, answers), aggregate(d, decided_answers(d))),
        same_outcome(derive_result(d, answers), derive_result(d, decided_answers(d))),
{
    match d.shape {
        ShapeModel::NamedStruct(fields) => {
            let known = decided_answers(d);
            assert forall|i: int| 0 <= i < fields.len() implies (#[trigger] answers[i]).alias_value
                == known[i].alias_value && answers[i].alias_accepted
                == known[i].alias_accepted by {
                assert(decided_alias(fields[i]) is Some);
            }
            lemma_alias_error_depends_on_aliases(fields, answers, known, 0);
        },
        _ => {},
    }
}

/// Deriving is a function of the declaration and of the lexer's answers:
/// two derivations from declarations of the same value, with answers of the
/// same value, fail with the same error or succeed with the same trees.
pub proof fn lemma_derive_is_deterministic(
    first: Declaration,
    second: Declaration,
    first_answers: Vec<FieldAnswers>,
    second_answers: Vec<FieldAnswers>,
    first_result: Result<Vec<TokenTree>, StructuralError>,
    second_result: Result<Vec<TokenTree>, StructuralError>,
)
    requires
        first@ == second@,
        answers_model(first_answers@) == answers_model(second_answers@),
        call_ensures(derive_with, (&first, &first_answers), first_result),
        call_ensures(derive_with, (&second, &second_answers), second_result),
    ensures
        match (first_result, second_result) {
            (Ok(a), Ok(b)) => stream_model(a@) == stream_model(b@),
            (Err(a), Err(b)) => a == b,
            _ => false,
        },
{
}

} // verus!
