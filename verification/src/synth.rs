//! The synthesized builder: which setters each field gets, and the code of
//! the builder type, of its setters and of its finalizer.

use crate::builder::{
    alias_error, alias_error_from, alias_fits, alias_with, aliases_decided, answers_fit,
    answers_model, attributes_model, decided_alias, decided_answers, field_count, fields_model,
    gather_answers, gather_field_answers, lemma_outcome_of_decided_aliases, resolve_each_with,
    same_outcome, AliasModel, AnswersModel, Attribute, AttributeKind, AttributeModel,
    Declaration, DeclarationModel, EachAlias, Field, FieldAnswers, FieldModel, Shape, ShapeModel,
};
use crate::classify::{
    classification, classify, DescriptorModel, TypeDescriptor, TypeExpr, TypeModel,
};
use crate::emit::{
    alone, arrow, comma_separated, concat, group, joint, literal, named, new_stream, push_all,
    push_alone, push_arrow, push_group, push_joint, push_literal, push_named, push_owned,
    push_std_path, push_word, std_path, word,
};
use crate::error::{Reason, StructuralError};
use crate::text::{builder_ident, builder_name};
use crate::token::{stream_model, Delimiter, Ident, IdentModel, TokenModel, TokenTree};
use vstd::prelude::*;

verus! {

/// One field of a validated aggregate: what was declared, its
/// classification, and the element setter's name if one was asked for.
#[derive(Debug, PartialEq, Eq)]
pub struct FieldDescriptor<'a> {
    pub name: &'a Ident,
    pub written_type: &'a TypeExpr,
    pub declared_type: TypeDescriptor<'a>,
    pub attributes: &'a Vec<Attribute>,
    pub each: Option<EachAlias>,
    /// The text of the string literal that the finalizer reports when the
    /// field is missing.
    pub missing_literal: String,
}

/// The mathematical value of a described field.
pub struct FieldDescriptorModel {
    pub name: IdentModel,
    pub ty: TypeModel,
    pub attributes: Seq<AttributeModel>,
    pub each: Option<IdentModel>,
    pub missing_literal: Seq<char>,
}

/// The mathematical value of a validated aggregate: its name and its
/// fields in declaration order.
pub struct AggregateModel {
    pub name: IdentModel,
    pub fields: Seq<FieldDescriptorModel>,
}

impl<'a> View for FieldDescriptor<'a> {
    type V = FieldDescriptorModel;

    open spec fn view(&self) -> FieldDescriptorModel {
        FieldDescriptorModel {
            name: self.name@,
            ty: self.written_type@,
            attributes: attributes_model(self.attributes@),
            each: match self.each {
                Some(alias) => Some(alias.element_setter_name@),
                None => None,
            },
            missing_literal: self.missing_literal@,
        }
    }
}

/// A declared field with what its attributes say about an element setter
/// and with the literal for its message, given the lexer's answers.
pub open spec fn described(f: FieldModel, answers: AnswersModel) -> FieldDescriptorModel {
    FieldDescriptorModel {
        name: f.name,
        ty: f.ty,
        attributes: f.attributes,
        each: match alias_with(f, answers) {
            AliasModel::EachAlias(alias) => Some(alias),
            _ => None,
        },
        missing_literal: answers.message_literal,
    }
}

/// The description of a declared field, or the error of its attributes.
pub open spec fn description(f: FieldModel, answers: AnswersModel) -> Result<
    FieldDescriptorModel,
    StructuralError,
> {
    match alias_with(f, answers) {
        AliasModel::Malformed(e) => Err(e),
        _ => Ok(described(f, answers)),
    }
}

/// The validated aggregate of a declaration, given the lexer's answers for
/// each field: a struct with named fields, none of which has malformed
/// attributes. A wrong shape is reported before any field is looked at, at
/// the declaration's name; after that the first malformed field decides.
pub open spec fn aggregate(d: DeclarationModel, answers: Seq<AnswersModel>) -> Result<
    AggregateModel,
    StructuralError,
> {
    match d.shape {
        ShapeModel::NamedStruct(fields) => match alias_error(fields, answers) {
            Some(e) => Err(e),
            None => Ok(
                AggregateModel {
                    name: d.name,
                    fields: Seq::new(fields.len(), |i: int| described(fields[i], answers[i])),
                },
            ),
        },
        ShapeModel::TupleStruct | ShapeModel::UnitStruct => Err(
            StructuralError { reason: Reason::ExpectedNamedFields, position: d.name.span },
        ),
        ShapeModel::Enum | ShapeModel::Union => Err(
            StructuralError { reason: Reason::ExpectedStruct, position: d.name.span },
        ),
    }
}

/// Whether a description is the one expected: the same error, or a
/// well-formed descriptor of the expected value.
pub open spec fn descriptor_agrees(
    described: Result<FieldDescriptor, StructuralError>,
    expected: Result<FieldDescriptorModel, StructuralError>,
) -> bool {
    match expected {
        Ok(f) => described is Ok && described->Ok_0@ == f && described->Ok_0.wf(),
        Err(e) => described == Err::<FieldDescriptor, StructuralError>(e),
    }
}

/// Whether a validation is the one expected: the same error, or a
/// well-formed aggregate of the expected value.
pub open spec fn aggregate_agrees(
    validated: Result<AggregateDeclaration, StructuralError>,
    expected: Result<AggregateModel, StructuralError>,
) -> bool {
    match expected {
        Ok(a) => validated is Ok && validated->Ok_0@ == a && validated->Ok_0.wf(),
        Err(e) => validated == Err::<AggregateDeclaration, StructuralError>(e),
    }
}

impl<'a> FieldDescriptor<'a> {
    /// The classification is that of the written type, and only a repeated
    /// field has an alias.
    pub open spec fn wf(&self) -> bool {
        &&& self.declared_type@ == classification(self@.ty)
        &&& self.each is Some ==> self.declared_type is Repeated
    }

    /// Classifies a field and reads its attributes, given what the lexer
    /// answered about the field.
    pub fn new_with(field: &'a Field, answers: &FieldAnswers) -> (described: Result<
        FieldDescriptor<'a>,
        StructuralError,
    >)
        ensures
            descriptor_agrees(described, description(field@, answers@)),
    {
        let declared_type = classify(&field.ty);
        let each = match resolve_each_with(
            &declared_type,
            field,
            &answers.alias_value,
            answers.alias_accepted,
        ) {
            AttributeKind::Absent => None,
            AttributeKind::EachAlias(alias) => Some(alias),
            AttributeKind::Malformed(e) => {
                return Err(e);
            },
        };
        Ok(
            FieldDescriptor {
                name: &field.name,
                written_type: &field.ty,
                declared_type,
                attributes: &field.attributes,
                each,
                missing_literal: answers.message_literal.clone(),
            },
        )
    }

    /// Classifies a field and reads its attributes. The lexer is asked
    /// about the field, and the descriptor or the error is the one that
    /// its answers give. Where its answers about the alias are known, they
    /// decide between descriptor and error, and the descriptor is then
    /// fixed but for the message literal.
    pub fn new(field: &'a Field) -> (described: Result<FieldDescriptor<'a>, StructuralError>)
        ensures
            exists|answers: AnswersModel|
                alias_fits(field@, answers.alias_value, answers.alias_accepted)
                    && descriptor_agrees(described, #[trigger] description(field@, answers)),
            decided_alias(field@) matches Some(known) ==> same_outcome(
                described,
                description(
                    field@,
                    AnswersModel {
                        alias_value: known.0,
                        alias_accepted: known.1,
                        message_literal: Seq::empty(),
                    },
                ),
            ),
    {
        let answers = gather_field_answers(field);
        let described = FieldDescriptor::new_with(field, &answers);
        assert(descriptor_agrees(described, description(field@, answers@)));
        described
    }
}

/// A validated aggregate.
#[derive(Debug, PartialEq, Eq)]
pub struct AggregateDeclaration<'a> {
    pub name: &'a Ident,
    pub fields: Vec<FieldDescriptor<'a>>,
}

/// The values of the described fields, in order.
pub open spec fn descriptors_model(fields: Seq<FieldDescriptor>) -> Seq<FieldDescriptorModel> {
    Seq::new(fields.len(), |i: int| fields[i]@)
}

impl<'a> View for AggregateDeclaration<'a> {
    type V = AggregateModel;

    open spec fn view(&self) -> AggregateModel {
        AggregateModel { name: self.name@, fields: descriptors_model(self.fields@) }
    }
}

impl<'a> AggregateDeclaration<'a> {
    /// Every field is well formed.
    pub open spec fn wf(&self) -> bool {
        forall|i: int| 0 <= i < self.fields@.len() ==> (#[trigger] self.fields@[i]).wf()
    }

    /// Validates a declaration, given the lexer's answers for each of its
    /// fields: a struct with named fields, each with well-formed
    /// attributes.
    pub fn new_with(declaration: &'a Declaration, answers: &Vec<FieldAnswers>) -> (validated:
        Result<AggregateDeclaration<'a>, StructuralError>)
        requires
            declaration@.shape is NamedStruct ==> answers@.len() == field_count(declaration@),
        ensures
            aggregate_agrees(validated, aggregate(declaration@, answers_model(answers@))),
    {
        let declared = match &declaration.shape {
            Shape::NamedStruct(fields) => fields,
            Shape::TupleStruct | Shape::UnitStruct => {
                return Err(
                    StructuralError {
                        reason: Reason::ExpectedNamedFields,
                        position: declaration.name.span,
                    },
                );
            },
            Shape::Enum | Shape::Union => {
                return Err(
                    StructuralError {
                        reason: Reason::ExpectedStruct,
                        position: declaration.name.span,
                    },
                );
            },
        };
        let ghost all = fields_model(declared@);
        let ghost given = answers_model(answers@);
        let mut fields: Vec<FieldDescriptor<'a>> = Vec::new();
        let mut i: usize = 0;
        while i < declared.len()
            invariant
                i <= declared.len(),
                all == fields_model(declared@),
                given == answers_model(answers@),
                answers@.len() == declared@.len(),
                declaration@.shape == ShapeModel::NamedStruct(all),
                fields@.len() == i,
                alias_error(all, given) == alias_error_from(all, given, i as int),
                forall|k: int|
                    0 <= k < i ==> (#[trigger] fields@[k])@ == self::described(all[k], given[k])
                        && fields@[k].wf(),
            decreases declared.len() - i,
        {
            assert(all[i as int] == declared@[i as int]@);
            assert(given[i as int] == answers@[i as int]@);
            let described = match FieldDescriptor::new_with(&declared[i], &answers[i]) {
                Ok(described) => described,
                Err(e) => {
                    return Err(e);
                },
            };
            fields.push(described);
            i += 1;
        }
        let validated = AggregateDeclaration { name: &declaration.name, fields };
        assert(validated@.fields =~= Seq::new(
            all.len(),
            |i: int| self::described(all[i], given[i]),
        ));
        Ok(validated)
    }

    /// Validates a declaration. The lexer is asked about each field, and
    /// the aggregate or the error is the one that its answers give. Where
    /// its answers about every alias are known, they decide between
    /// aggregate and error. A declaration of the wrong shape gives its
    /// error whatever the answers.
    pub fn new(declaration: &'a Declaration) -> (validated: Result<
        AggregateDeclaration<'a>,
        StructuralError,
    >)
        ensures
            exists|answers: Seq<AnswersModel>|
                answers_fit(declaration@, answers) && aggregate_agrees(
                    validated,
                    #[trigger] aggregate(declaration@, answers),
                ),
            aliases_decided(declaration@) ==> same_outcome(
                validated,
                aggregate(declaration@, decided_answers(declaration@)),
            ),
    {
        let answers = gather_answers(declaration);
        let validated = AggregateDeclaration::new_with(declaration, &answers);
        proof {
            let given = answers_model(answers@);
            assert(aggregate_agrees(validated, aggregate(declaration@, given)));
            if aliases_decided(declaration@) {
                lemma_outcome_of_decided_aliases(declaration@, given);
            }
        }
        validated
    }
}

/// What a setter does with its argument.
#[derive(Clone, Copy, Debug, PartialEq, Eq, Hash, Structural)]
pub enum Action {
    /// Stores the argument as the field's present value.
    Store,
    /// Replaces the field's whole sequence by the argument.
    Replace,
    /// Appends the argument to the field's sequence.
    Append,
}

/// One setter of the builder.
#[derive(Debug, PartialEq, Eq)]
pub struct Setter<'a> {
    pub name: Ident,
    pub parameter: &'a TypeExpr,
    pub action: Action,
}

pub struct SetterModel {
    pub name: IdentModel,
    pub parameter: Seq<TokenModel>,
    pub action: Action,
}

impl<'a> View for Setter<'a> {
    type V = SetterModel;

    open spec fn view(&self) -> SetterModel {
        SetterModel { name: self.name@, parameter: self.parameter@.tokens, action: self.action }
    }
}

/// The values of the setters, in order.
pub open spec fn setters_model(setters: Seq<Setter>) -> Seq<SetterModel> {
    Seq::new(setters.len(), |i: int| setters[i]@)
}

/// The setter that replaces a repeated field's whole sequence.
pub open spec fn whole_setter(f: FieldDescriptorModel) -> SetterModel {
    SetterModel { name: f.name, parameter: f.ty.tokens, action: Action::Replace }
}

/// The setters of a field, in the order they are generated. A scalar or
/// optional field has one, which takes the bare type. A repeated field has
/// the one that replaces the whole sequence, and after it the element
/// setter if an alias names one; where the alias is the field's own name,
/// the element setter stands alone.
pub open spec fn setters_of(f: FieldDescriptorModel) -> Seq<SetterModel> {
    match classification(f.ty) {
        DescriptorModel::Scalar(t) => seq![
            SetterModel { name: f.name, parameter: t.tokens, action: Action::Store },
        ],
        DescriptorModel::Optional(t) => seq![
            SetterModel { name: f.name, parameter: t.tokens, action: Action::Store },
        ],
        DescriptorModel::Repeated(inner) => match f.each {
            Some(alias) => {
                let each = SetterModel {
                    name: alias,
                    parameter: inner.tokens,
                    action: Action::Append,
                };
                if alias.name == f.name.name {
                    seq![each]
                } else {
                    seq![whole_setter(f), each]
                }
            },
            None => seq![whole_setter(f)],
        },
    }
}

/// The builder's field for an aggregate's field: an optional of the bare
/// type, or the sequence type as declared.
pub open spec fn storage(f: FieldDescriptorModel) -> Seq<TokenModel> {
    match classification(f.ty) {
        DescriptorModel::Scalar(t) => seq![named(f.name), alone(':')] + std_path(
            "option"@,
            "Option"@,
        ) + seq![alone('<')] + t.tokens + seq![alone('>')],
        DescriptorModel::Optional(t) => seq![named(f.name), alone(':')] + std_path(
            "option"@,
            "Option"@,
        ) + seq![alone('<')] + t.tokens + seq![alone('>')],
        DescriptorModel::Repeated(_) => seq![named(f.name), alone(':')] + f.ty.tokens,
    }
}

/// The initial value of a builder's field: absent, or the empty sequence.
pub open spec fn initial(f: FieldDescriptorModel) -> Seq<TokenModel> {
    if classification(f.ty) is Repeated {
        seq![named(f.name), alone(':')] + std_path("vec"@, "Vec"@) + seq![
            joint(':'),
            alone(':'),
            word("new"@),
            group(Delimiter::Parenthesis, Seq::empty()),
        ]
    } else {
        seq![named(f.name), alone(':'), word("None"@)]
    }
}

/// The statements of a setter.
pub open spec fn setter_body(f: FieldDescriptorModel, s: SetterModel) -> Seq<TokenModel> {
    match s.action {
        Action::Store => seq![word("self"@), alone('.'), named(f.name), alone('=')] + std_path(
            "option"@,
            "Option"@,
        ) + seq![
            joint(':'),
            alone(':'),
            word("Some"@),
            group(Delimiter::Parenthesis, seq![named(s.name)]),
            alone(';'),
            word("self"@),
        ],
        Action::Replace => seq![
            word("self"@),
            alone('.'),
            named(f.name),
            alone('='),
            named(s.name),
            alone(';'),
            word("self"@),
        ],
        Action::Append => seq![
            word("self"@),
            alone('.'),
            named(f.name),
            alone('.'),
            word("push"@),
            group(Delimiter::Parenthesis, seq![named(s.name)]),
            alone(';'),
            word("self"@),
        ],
    }
}

/// A setter: `fn name(&mut self, name: Parameter) -> &mut Self { ... }`.
pub open spec fn setter_code(f: FieldDescriptorModel, s: SetterModel) -> Seq<TokenModel> {
    seq![
        word("fn"@),
        named(s.name),
        group(
            Delimiter::Parenthesis,
            seq![
                alone('&'),
                word("mut"@),
                word("self"@),
                alone(','),
                named(s.name),
                alone(':'),
            ] + s.parameter,
        ),
    ] + arrow() + seq![
        alone('&'),
        word("mut"@),
        word("Self"@),
        group(Delimiter::Brace, setter_body(f, s)),
    ]
}

/// The code of each setter in a list.
pub open spec fn setter_codes(f: FieldDescriptorModel, setters: Seq<SetterModel>) -> Seq<Seq<TokenModel>> {
    Seq::new(setters.len(), |i: int| setter_code(f, setters[i]))
}

/// The setters of one field.
pub open spec fn field_setters(f: FieldDescriptorModel) -> Seq<TokenModel> {
    concat(setter_codes(f, setters_of(f)))
}

/// How the finalizer resolves a field: a scalar field must be present, and
/// the error for its absence is the field's message literal; any other
/// field is passed through.
pub open spec fn resolution(f: FieldDescriptorModel) -> Seq<TokenModel> {
    let read = seq![
        named(f.name),
        alone(':'),
        word("self"@),
        alone('.'),
        named(f.name),
        alone('.'),
        word("clone"@),
        group(Delimiter::Parenthesis, Seq::empty()),
    ];
    if classification(f.ty) is Scalar {
        read + seq![
            alone('.'),
            word("ok_or"@),
            group(Delimiter::Parenthesis, seq![literal(f.missing_literal)]),
            alone('?'),
        ]
    } else {
        read
    }
}

/// The three places where every field of the aggregate appears in turn.
#[derive(Clone, Copy, Debug, PartialEq, Eq, Hash, Structural)]
pub enum Part {
    /// The fields of the builder type.
    Storage,
    /// The initial values in the entry point.
    Initial,
    /// The resolved fields in the finalizer.
    Resolution,
}

/// What stands for a field in one of the three places.
pub open spec fn part_of(f: FieldDescriptorModel, part: Part) -> Seq<TokenModel> {
    match part {
        Part::Storage => storage(f),
        Part::Initial => initial(f),
        Part::Resolution => resolution(f),
    }
}

/// What stands for each field in one of the three places, in declaration
/// order.
pub open spec fn parts(fields: Seq<FieldDescriptorModel>, part: Part) -> Seq<Seq<TokenModel>> {
    Seq::new(fields.len(), |i: int| part_of(fields[i], part))
}

pub open spec fn all_setters(fields: Seq<FieldDescriptorModel>) -> Seq<Seq<TokenModel>> {
    Seq::new(fields.len(), |i: int| field_setters(fields[i]))
}

/// The builder type's identifier: the aggregate's name with the suffix, at
/// the aggregate's position.
pub open spec fn builder_of(name: IdentModel) -> IdentModel {
    IdentModel { name: builder_name(name.name), span: name.span }
}

/// `pub struct NameBuilder { ... }`.
pub open spec fn builder_struct(a: AggregateModel) -> Seq<TokenModel> {
    seq![
        word("pub"@),
        word("struct"@),
        named(builder_of(a.name)),
        group(Delimiter::Brace, comma_separated(parts(a.fields, Part::Storage))),
    ]
}

/// `impl Name { pub fn builder() -> NameBuilder { NameBuilder { ... } } }`.
pub open spec fn entry_impl(a: AggregateModel) -> Seq<TokenModel> {
    seq![
        word("impl"@),
        named(a.name),
        group(
            Delimiter::Brace,
            seq![
                word("pub"@),
                word("fn"@),
                word("builder"@),
                group(Delimiter::Parenthesis, Seq::empty()),
            ] + arrow() + seq![
                named(builder_of(a.name)),
                group(
                    Delimiter::Brace,
                    seq![
                        named(builder_of(a.name)),
                        group(Delimiter::Brace, comma_separated(parts(a.fields, Part::Initial))),
                    ],
                ),
            ],
        ),
    ]
}

/// The finalizer: `pub fn build(&mut self) -> Result<Name, Box<dyn Error>>`
/// with every field resolved in declaration order.
pub open spec fn build_fn(a: AggregateModel) -> Seq<TokenModel> {
    seq![
        word("pub"@),
        word("fn"@),
        word("build"@),
        group(Delimiter::Parenthesis, seq![alone('&'), word("mut"@), word("self"@)]),
    ] + arrow() + std_path("result"@, "Result"@) + seq![alone('<'), named(a.name), alone(',')]
        + std_path("boxed"@, "Box"@) + seq![alone('<'), word("dyn"@)] + std_path(
        "error"@,
        "Error"@,
    ) + seq![
        joint('>'),
        alone('>'),
        group(
            Delimiter::Brace,
            seq![
                word("Ok"@),
                group(
                    Delimiter::Parenthesis,
                    seq![
                        named(a.name),
                        group(Delimiter::Brace, comma_separated(parts(a.fields, Part::Resolution))),
                    ],
                ),
            ],
        ),
    ]
}

/// `impl NameBuilder { setters... finalizer }`.
pub open spec fn builder_impl(a: AggregateModel) -> Seq<TokenModel> {
    seq![
        word("impl"@),
        named(builder_of(a.name)),
        group(Delimiter::Brace, concat(all_setters(a.fields)) + build_fn(a)),
    ]
}

/// Everything generated for an aggregate: the builder type, the entry point
/// on the aggregate, and the builder's setters and finalizer.
pub open spec fn synthesis(a: AggregateModel) -> Seq<TokenModel> {
    builder_struct(a) + entry_impl(a) + builder_impl(a)
}

impl<'a> FieldDescriptor<'a> {
    /// The setters of the field, in the order they are generated.
    pub fn setters(&self) -> (list: Vec<Setter<'a>>)
        requires
            self.wf(),
        ensures
            setters_model(list@) == setters_of(self@),
            list@.len() == setters_of(self@).len(),
    {
        let own_name = Ident { name: self.name.name.clone(), span: self.name.span };
        let list = match &self.declared_type {
            TypeDescriptor::Scalar(t) => vec![
                Setter { name: own_name, parameter: *t, action: Action::Store },
            ],
            TypeDescriptor::Optional(t) => vec![
                Setter { name: own_name, parameter: *t, action: Action::Store },
            ],
            TypeDescriptor::Repeated(inner) => {
                let whole = Setter {
                    name: own_name,
                    parameter: self.written_type,
                    action: Action::Replace,
                };
                match &self.each {
                    Some(alias) => {
                        let alias_name = &alias.element_setter_name;
                        let each = Setter {
                            name: Ident { name: alias_name.name.clone(), span: alias_name.span },
                            parameter: *inner,
                            action: Action::Append,
                        };
                        if alias_name.name == self.name.name {
                            vec![each]
                        } else {
                            vec![whole, each]
                        }
                    },
                    None => vec![whole],
                }
            },
        };
        assert(setters_model(list@) =~= setters_of(self@));
        list
    }

    /// The builder's field for this field.
    pub fn storage(&self) -> (code: Vec<TokenTree>)
        requires
            self.wf(),
        ensures
            stream_model(code@) == storage(self@),
    {
        let mut code = new_stream();
        push_named(&mut code, self.name);
        push_alone(&mut code, ':');
        match &self.declared_type {
            TypeDescriptor::Scalar(t) => {
                push_std_path(&mut code, "option", "Option");
                push_alone(&mut code, '<');
                push_all(&mut code, &t.tokens);
                push_alone(&mut code, '>');
            },
            TypeDescriptor::Optional(t) => {
                push_std_path(&mut code, "option", "Option");
                push_alone(&mut code, '<');
                push_all(&mut code, &t.tokens);
                push_alone(&mut code, '>');
            },
            TypeDescriptor::Repeated(_) => {
                push_all(&mut code, &self.written_type.tokens);
            },
        }
        assert(stream_model(code@) =~= storage(self@));
        code
    }

    /// The initial value of the builder's field.
    pub fn initial(&self) -> (code: Vec<TokenTree>)
        requires
            self.wf(),
        ensures
            stream_model(code@) == initial(self@),
    {
        let mut code = new_stream();
        push_named(&mut code, self.name);
        push_alone(&mut code, ':');
        match &self.declared_type {
            TypeDescriptor::Repeated(_) => {
                push_std_path(&mut code, "vec", "Vec");
                push_joint(&mut code, ':');
                push_alone(&mut code, ':');
                push_word(&mut code, "new");
                push_group(&mut code, Delimiter::Parenthesis, new_stream());
            },
            _ => {
                push_word(&mut code, "None");
            },
        }
        assert(stream_model(code@) =~= initial(self@));
        code
    }

    /// One setter of this field.
    pub fn setter_code(&self, setter: &Setter) -> (code: Vec<TokenTree>)
        ensures
            stream_model(code@) == setter_code(self@, setter@),
    {
        let mut parameters = new_stream();
        push_alone(&mut parameters, '&');
        push_word(&mut parameters, "mut");
        push_word(&mut parameters, "self");
        push_alone(&mut parameters, ',');
        push_named(&mut parameters, &setter.name);
        push_alone(&mut parameters, ':');
        push_all(&mut parameters, &setter.parameter.tokens);
        assert(stream_model(parameters@) == seq![
            alone('&'),
            word("mut"@),
            word("self"@),
            alone(','),
            named(setter@.name),
            alone(':'),
        ] + setter@.parameter);

        let mut argument = new_stream();
        push_named(&mut argument, &setter.name);

        let mut body = new_stream();
        push_word(&mut body, "self");
        push_alone(&mut body, '.');
        push_named(&mut body, self.name);
        match setter.action {
            Action::Store => {
                push_alone(&mut body, '=');
                push_std_path(&mut body, "option", "Option");
                push_joint(&mut body, ':');
                push_alone(&mut body, ':');
                push_word(&mut body, "Some");
                push_group(&mut body, Delimiter::Parenthesis, argument);
            },
            Action::Replace => {
                push_alone(&mut body, '=');
                push_named(&mut body, &setter.name);
            },
            Action::Append => {
                push_alone(&mut body, '.');
                push_word(&mut body, "push");
                push_group(&mut body, Delimiter::Parenthesis, argument);
            },
        }
        push_alone(&mut body, ';');
        push_word(&mut body, "self");
        assert(stream_model(body@) =~= setter_body(self@, setter@));

        let mut code = new_stream();
        push_word(&mut code, "fn");
        push_named(&mut code, &setter.name);
        push_group(&mut code, Delimiter::Parenthesis, parameters);
        push_arrow(&mut code);
        let ghost head = stream_model(code@);
        assert(head == seq![
            word("fn"@),
            named(setter@.name),
            group(
                Delimiter::Parenthesis,
                seq![
                    alone('&'),
                    word("mut"@),
                    word("self"@),
                    alone(','),
                    named(setter@.name),
                    alone(':'),
                ] + setter@.parameter,
            ),
        ] + arrow());
        push_alone(&mut code, '&');
        push_word(&mut code, "mut");
        push_word(&mut code, "Self");
        push_group(&mut code, Delimiter::Brace, body);
        assert(stream_model(code@) =~= head + seq![
            alone('&'),
            word("mut"@),
            word("Self"@),
            group(Delimiter::Brace, setter_body(self@, setter@)),
        ]);
        code
    }

    /// All setters of this field.
    pub fn field_setters(&self) -> (code: Vec<TokenTree>)
        requires
            self.wf(),
        ensures
            stream_model(code@) == field_setters(self@),
    {
        let setters = self.setters();
        let ghost pieces = setter_codes(self@, setters_of(self@));
        let mut code = new_stream();
        let mut i: usize = 0;
        while i < setters.len()
            invariant
                i <= setters.len(),
                setters_model(setters@) == setters_of(self@),
                pieces == setter_codes(self@, setters_of(self@)),
                stream_model(code@) == concat(pieces.take(i as int)),
            decreases setters.len() - i,
        {
            let piece = self.setter_code(&setters[i]);
            assert(setters_model(setters@)[i as int] == setters@[i as int]@);
            push_owned(&mut code, piece);
            assert(pieces.take(i as int + 1).drop_last() =~= pieces.take(i as int));
            i += 1;
        }
        assert(pieces.take(i as int) =~= pieces);
        code
    }

    /// How the finalizer resolves this field.
    pub fn resolution(&self) -> (code: Vec<TokenTree>)
        requires
            self.wf(),
        ensures
            stream_model(code@) == resolution(self@),
    {
        let mut code = new_stream();
        push_named(&mut code, self.name);
        push_alone(&mut code, ':');
        push_word(&mut code, "self");
        push_alone(&mut code, '.');
        push_named(&mut code, self.name);
        push_alone(&mut code, '.');
        push_word(&mut code, "clone");
        push_group(&mut code, Delimiter::Parenthesis, new_stream());
        match &self.declared_type {
            TypeDescriptor::Scalar(_) => {
                let mut argument = new_stream();
                push_literal(&mut argument, self.missing_literal.clone());
                push_alone(&mut code, '.');
                push_word(&mut code, "ok_or");
                push_group(&mut code, Delimiter::Parenthesis, argument);
                push_alone(&mut code, '?');
            },
            _ => {},
        }
        assert(stream_model(code@) =~= resolution(self@));
        code
    }

    /// What stands for this field in one of the three places.
    pub fn part(&self, part: Part) -> (code: Vec<TokenTree>)
        requires
            self.wf(),
        ensures
            stream_model(code@) == part_of(self@, part),
    {
        match part {
            Part::Storage => self.storage(),
            Part::Initial => self.initial(),
            Part::Resolution => self.resolution(),
        }
    }
}

impl<'a> AggregateDeclaration<'a> {
    /// What stands for each field in one of the three places, separated
    /// by commas.
    fn part_list(&self, part: Part) -> (code: Vec<TokenTree>)
        requires
            self.wf(),
        ensures
            stream_model(code@) == comma_separated(parts(self@.fields, part)),
    {
        let ghost pieces = parts(self@.fields, part);
        let mut code = new_stream();
        let mut i: usize = 0;
        while i < self.fields.len()
            invariant
                i <= self.fields.len(),
                self.wf(),
                pieces == parts(self@.fields, part),
                stream_model(code@) == comma_separated(pieces.take(i as int)),
            decreases self.fields.len() - i,
        {
            let piece = self.fields[i].part(part);
            if i > 0 {
                push_alone(&mut code, ',');
            }
            push_owned(&mut code, piece);
            assert(pieces.take(i as int + 1).drop_last() =~= pieces.take(i as int));
            assert(stream_model(code@) =~= comma_separated(pieces.take(i as int + 1)));
            i += 1;
        }
        assert(pieces.take(i as int) =~= pieces);
        code
    }

    /// The setters of all fields, one after the other.
    fn setter_list(&self) -> (code: Vec<TokenTree>)
        requires
            self.wf(),
        ensures
            stream_model(code@) == concat(all_setters(self@.fields)),
    {
        let ghost pieces = all_setters(self@.fields);
        let mut code = new_stream();
        let mut i: usize = 0;
        while i < self.fields.len()
            invariant
                i <= self.fields.len(),
                self.wf(),
                pieces == all_setters(self@.fields),
                stream_model(code@) == concat(pieces.take(i as int)),
            decreases self.fields.len() - i,
        {
            let piece = self.fields[i].field_setters();
            push_owned(&mut code, piece);
            assert(pieces.take(i as int + 1).drop_last() =~= pieces.take(i as int));
            i += 1;
        }
        assert(pieces.take(i as int) =~= pieces);
        code
    }

    /// `pub struct NameBuilder { ... }`.
    fn builder_struct(&self) -> (code: Vec<TokenTree>)
        requires
            self.wf(),
        ensures
            stream_model(code@) == builder_struct(self@),
    {
        let builder = builder_ident(self.name);
        let mut code = new_stream();
        push_word(&mut code, "pub");
        push_word(&mut code, "struct");
        push_named(&mut code, &builder);
        push_group(&mut code, Delimiter::Brace, self.part_list(Part::Storage));
        code
    }

    /// `impl Name { pub fn builder() -> NameBuilder { ... } }`.
    fn entry_impl(&self) -> (code: Vec<TokenTree>)
        requires
            self.wf(),
        ensures
            stream_model(code@) == entry_impl(self@),
    {
        let builder = builder_ident(self.name);
        let mut value = new_stream();
        push_named(&mut value, &builder);
        push_group(&mut value, Delimiter::Brace, self.part_list(Part::Initial));
        assert(stream_model(value@) == seq![
            named(builder_of(self@.name)),
            group(Delimiter::Brace, comma_separated(parts(self@.fields, Part::Initial))),
        ]);

        let mut items = new_stream();
        push_word(&mut items, "pub");
        push_word(&mut items, "fn");
        push_word(&mut items, "builder");
        push_group(&mut items, Delimiter::Parenthesis, new_stream());
        push_arrow(&mut items);
        let ghost head = stream_model(items@);
        assert(head == seq![
            word("pub"@),
            word("fn"@),
            word("builder"@),
            group(Delimiter::Parenthesis, Seq::empty()),
        ] + arrow());
        push_named(&mut items, &builder);
        push_group(&mut items, Delimiter::Brace, value);
        assert(stream_model(items@) =~= head + seq![
            named(builder_of(self@.name)),
            group(
                Delimiter::Brace,
                seq![
                    named(builder_of(self@.name)),
                    group(Delimiter::Brace, comma_separated(parts(self@.fields, Part::Initial))),
                ],
            ),
        ]);

        let mut code = new_stream();
        push_word(&mut code, "impl");
        push_named(&mut code, self.name);
        push_group(&mut code, Delimiter::Brace, items);
        code
    }

    /// The finalizer.
    fn build_fn(&self) -> (code: Vec<TokenTree>)
        requires
            self.wf(),
        ensures
            stream_model(code@) == build_fn(self@),
    {
        let mut receiver = new_stream();
        push_alone(&mut receiver, '&');
        push_word(&mut receiver, "mut");
        push_word(&mut receiver, "self");
        assert(stream_model(receiver@) == seq![alone('&'), word("mut"@), word("self"@)]);

        let mut value = new_stream();
        push_named(&mut value, self.name);
        push_group(&mut value, Delimiter::Brace, self.part_list(Part::Resolution));
        assert(stream_model(value@) == seq![
            named(self@.name),
            group(Delimiter::Brace, comma_separated(parts(self@.fields, Part::Resolution))),
        ]);

        let mut body = new_stream();
        push_word(&mut body, "Ok");
        push_group(&mut body, Delimiter::Parenthesis, value);
        assert(stream_model(body@) == seq![
            word("Ok"@),
            group(
                Delimiter::Parenthesis,
                seq![
                    named(self@.name),
                    group(Delimiter::Brace, comma_separated(parts(self@.fields, Part::Resolution))),
                ],
            ),
        ]);

        let mut code = new_stream();
        push_word(&mut code, "pub");
        push_word(&mut code, "fn");
        push_word(&mut code, "build");
        push_group(&mut code, Delimiter::Parenthesis, receiver);
        push_arrow(&mut code);
        push_std_path(&mut code, "result", "Result");
        let ghost head = stream_model(code@);
        assert(head == seq![
            word("pub"@),
            word("fn"@),
            word("build"@),
            group(Delimiter::Parenthesis, seq![alone('&'), word("mut"@), word("self"@)]),
        ] + arrow() + std_path("result"@, "Result"@));
        push_alone(&mut code, '<');
        push_named(&mut code, self.name);
        push_alone(&mut code, ',');
        assert(stream_model(code@) =~= head + seq![alone('<'), named(self@.name), alone(',')]);
        push_std_path(&mut code, "boxed", "Box");
        let ghost head = stream_model(code@);
        push_alone(&mut code, '<');
        push_word(&mut code, "dyn");
        assert(stream_model(code@) =~= head + seq![alone('<'), word("dyn"@)]);
        push_std_path(&mut code, "error", "Error");
        let ghost head = stream_model(code@);
        push_joint(&mut code, '>');
        push_alone(&mut code, '>');
        push_group(&mut code, Delimiter::Brace, body);
        assert(stream_model(code@) =~= head + seq![
            joint('>'),
            alone('>'),
            group(
                Delimiter::Brace,
                seq![
                    word("Ok"@),
                    group(
                        Delimiter::Parenthesis,
                        seq![
                            named(self@.name),
                            group(
                                Delimiter::Brace,
                                comma_separated(parts(self@.fields, Part::Resolution)),
                            ),
                        ],
                    ),
                ],
            ),
        ]);
        code
    }

    /// `impl NameBuilder { setters... finalizer }`.
    fn builder_impl(&self) -> (code: Vec<TokenTree>)
        requires
            self.wf(),
        ensures
            stream_model(code@) == builder_impl(self@),
    {
        let builder = builder_ident(self.name);
        let mut items = self.setter_list();
        push_owned(&mut items, self.build_fn());

        let mut code = new_stream();
        push_word(&mut code, "impl");
        push_named(&mut code, &builder);
        push_group(&mut code, Delimiter::Brace, items);
        code
    }

    /// Generates the builder's code.
    pub fn synthesize(&self) -> (code: Vec<TokenTree>)
        requires
            self.wf(),
        ensures
            stream_model(code@) == synthesis(self@),
    {
        let mut code = self.builder_struct();
        push_owned(&mut code, self.entry_impl());
        push_owned(&mut code, self.builder_impl());
        code
    }
}

} // verus!
