//! The bounded range expander: `name in START..END { body }` becomes the
//! body repeated once for each index of the half-open range, with every
//! occurrence of `name` in it replaced by the index.

use crate::error::{Reason, StructuralError};
use crate::lexeme::{
    asks_like_number, asks_number, decimal_text, fitting_index, index_of_value, is_identifier,
    known_identifier, known_integer, parse_integer_literal, unsuffixed_text,
};
use crate::token::{
    clone_stream, is_word, lemma_stream_model_concat, position_at, span_at, stream_agrees,
    stream_model, text_is, tree_model, visible, visible_trees, Delimiter, Group, Ident,
    IdentModel, Literal, Spacing, Span, TokenModel, TokenTree,
};
use vstd::prelude::*;

verus! {

/// One request to the expander.
#[derive(Debug, PartialEq, Eq)]
pub struct RangeExpansionRequest {
    pub loop_var: Ident,
    pub start: usize,
    pub end: usize,
    pub body: Vec<TokenTree>,
}

/// The mathematical value of a request.
pub struct RequestModel {
    pub loop_var: IdentModel,
    pub start: int,
    pub end: int,
    pub body: Seq<TokenModel>,
}

impl View for RangeExpansionRequest {
    type V = RequestModel;

    open spec fn view(&self) -> RequestModel {
        RequestModel {
            loop_var: self.loop_var@,
            start: self.start as int,
            end: self.end as int,
            body: stream_model(self.body@),
        }
    }
}

impl RangeExpansionRequest {
    /// The interval is not reversed. An empty interval is well formed.
    pub open spec fn wf(&self) -> bool {
        self.start <= self.end
    }
}

/// One tree with the loop variable replaced. A group keeps its delimiter
/// and position and has its contents rewritten; an identifier whose text is
/// exactly `var` becomes a literal with the given text at the identifier's
/// position; every other leaf stays as it is.
pub open spec fn substitute_tree(t: TokenModel, var: Seq<char>, text: Seq<char>) -> TokenModel
    decreases t,
{
    match t {
        TokenModel::Group { delimiter, stream, span } => TokenModel::Group {
            delimiter,
            stream: substitute(stream, var, text),
            span,
        },
        TokenModel::Ident { name, span } => if name == var {
            TokenModel::Literal { text, span }
        } else {
            t
        },
        _ => t,
    }
}

/// A run of trees with the loop variable replaced in each, in order.
pub open spec fn substitute(ts: Seq<TokenModel>, var: Seq<char>, text: Seq<char>) -> Seq<TokenModel>
    decreases ts,
{
    Seq::new(
        ts.len(),
        |i: int| if 0 <= i < ts.len() { substitute_tree(ts[i], var, text) } else { arbitrary() },
    )
}

/// The copies of the body for the indices `start`, `start + 1`, ... up to
/// but not including `end`, one after the other.
pub open spec fn expansion(body: Seq<TokenModel>, var: Seq<char>, start: int, end: int) -> Seq<TokenModel>
    decreases end - start,
{
    if start >= end {
        Seq::empty()
    } else {
        expansion(body, var, start, end - 1) + substitute(body, var, decimal_text((end - 1) as nat))
    }
}

/// Whether a tree is a literal that begins as a number does and holds no
/// sign.
pub open spec fn is_number(t: TokenModel) -> bool {
    t matches TokenModel::Literal { text, .. } && asks_number(text)
}

/// The index that a tree stands for as a bound of the range, where `value`
/// is what the lexer read from its text.
pub open spec fn bound_of(t: TokenModel, value: Option<u64>) -> Option<usize> {
    if is_number(t) {
        fitting_index(value)
    } else {
        None
    }
}

/// Whether a tree is a dot, and glued to what follows if `joint` is set.
pub open spec fn is_dot(t: TokenModel, joint: bool) -> bool {
    t matches TokenModel::Punct { ch, spacing, .. } && ch == '.' && (joint ==> spacing
        == Spacing::Joint)
}

/// Whether a tree is a group in curly braces.
pub open spec fn is_braced(t: TokenModel) -> bool {
    t matches TokenModel::Group { delimiter, .. } && delimiter == Delimiter::Brace
}

/// The contents of a group.
pub open spec fn contents(t: TokenModel) -> Seq<TokenModel> {
    match t {
        TokenModel::Group { stream, .. } => stream,
        _ => Seq::empty(),
    }
}

/// The text of an identifier.
pub open spec fn word_of(t: TokenModel) -> IdentModel {
    match t {
        TokenModel::Ident { name, span } => IdentModel { name, span },
        _ => IdentModel { name: Seq::empty(), span: Span::CallSite },
    }
}

/// The error for what stands at `index`, or for the early end of the input.
pub open spec fn error_at(reason: Reason, ts: Seq<TokenModel>, index: int) -> StructuralError {
    StructuralError { reason, position: position_at(ts, index) }
}

/// The text that the lexer is asked about as the loop variable: that of the
/// first tree, where it is an identifier.
pub open spec fn loop_var_candidate(ts: Seq<TokenModel>) -> Option<Seq<char>> {
    if ts.len() > 0 {
        match ts[0] {
            TokenModel::Ident { name, .. } => Some(name),
            _ => None,
        }
    } else {
        None
    }
}

/// The text that the lexer is asked about as a bound: that of the tree at
/// `index`, where it is a literal that begins as a number does and holds no
/// sign.
pub open spec fn bound_candidate(ts: Seq<TokenModel>, index: int) -> Option<Seq<char>> {
    if 0 <= index < ts.len() {
        match ts[index] {
            TokenModel::Literal { text, .. } => if asks_number(text) {
                Some(text)
            } else {
                None
            },
            _ => None,
        }
    } else {
        None
    }
}

/// What the lexer answers about the loop variable, where that is known:
/// nothing is accepted where nothing is asked.
pub open spec fn decided_loop_var(ts: Seq<TokenModel>) -> Option<bool> {
    match loop_var_candidate(ts) {
        Some(text) => known_identifier(text),
        None => Some(false),
    }
}

/// What the lexer answers about the bound at `index`, where that is known:
/// there is no value where nothing is asked.
pub open spec fn decided_bound(ts: Seq<TokenModel>, index: int) -> Option<Option<u64>> {
    match bound_candidate(ts, index) {
        Some(text) => known_integer(text),
        None => Some(None),
    }
}

/// Whether answers are those that the lexer can give about the visible
/// trees: where an answer is known, it is that one.
pub open spec fn answers_fit(
    ts: Seq<TokenModel>,
    loop_var_accepted: bool,
    start: Option<u64>,
    end: Option<u64>,
) -> bool {
    &&& decided_loop_var(ts) matches Some(known) ==> loop_var_accepted == known
    &&& decided_bound(ts, 2) matches Some(known) ==> start == known
    &&& decided_bound(ts, 5) matches Some(known) ==> end == known
}

/// Whether all three answers about the visible trees are known.
pub open spec fn header_decided(ts: Seq<TokenModel>) -> bool {
    decided_loop_var(ts) is Some && decided_bound(ts, 2) is Some && decided_bound(ts, 5) is Some
}

/// The header grammar, over the trees that are visible and over what the
/// lexer answered: whether the first tree's text is an identifier, and what
/// values it read from the two bounds.
///
/// The header is exactly seven trees: an identifier that the lexer accepts,
/// the word `in`, a number literal with a value that fits, two dots of
/// which the first is glued to the second, another such literal, and a
/// group in curly braces. The first tree that does not fit decides the
/// error. The range must not be reversed.
pub open spec fn header(
    ts: Seq<TokenModel>,
    loop_var_accepted: bool,
    start: Option<u64>,
    end: Option<u64>,
) -> Result<RequestModel, StructuralError> {
    if !(ts.len() > 0 && ts[0] is Ident && loop_var_accepted) {
        Err(error_at(Reason::ExpectedIdentifier, ts, 0))
    } else if !(ts.len() > 1 && is_word(ts[1], "in"@)) {
        Err(error_at(Reason::ExpectedIn, ts, 1))
    } else if !(ts.len() > 2 && bound_of(ts[2], start) is Some) {
        Err(error_at(Reason::ExpectedIntegerLiteral, ts, 2))
    } else if !(ts.len() > 4 && is_dot(ts[3], true) && is_dot(ts[4], false)) {
        Err(error_at(Reason::ExpectedRange, ts, 3))
    } else if !(ts.len() > 5 && bound_of(ts[5], end) is Some) {
        Err(error_at(Reason::ExpectedIntegerLiteral, ts, 5))
    } else if !(ts.len() > 6 && is_braced(ts[6])) {
        Err(error_at(Reason::ExpectedBraces, ts, 6))
    } else if ts.len() > 7 {
        Err(error_at(Reason::UnexpectedToken, ts, 7))
    } else if bound_of(ts[2], start)->0 > bound_of(ts[5], end)->0 {
        Err(error_at(Reason::DescendingRange, ts, 2))
    } else {
        Ok(
            RequestModel {
                loop_var: word_of(ts[0]),
                start: bound_of(ts[2], start)->0 as int,
                end: bound_of(ts[5], end)->0 as int,
                body: contents(ts[6]),
            },
        )
    }
}

/// What the expander makes of an input, given the lexer's answers: the
/// error of the header, or the expansion of the request that the header
/// states.
pub open spec fn seq_result(
    input: Seq<TokenModel>,
    loop_var_accepted: bool,
    start: Option<u64>,
    end: Option<u64>,
) -> Result<Seq<TokenModel>, StructuralError> {
    match header(visible(input), loop_var_accepted, start, end) {
        Ok(request) => Ok(expansion(request.body, request.loop_var.name, request.start, request.end)),
        Err(e) => Err(e),
    }
}

/// Whether a parse is the one expected: the same error, or a well-formed
/// request of the expected value.
pub open spec fn request_agrees(
    parsed: Result<RangeExpansionRequest, StructuralError>,
    expected: Result<RequestModel, StructuralError>,
) -> bool {
    match expected {
        Ok(request) => parsed is Ok && parsed->Ok_0@ == request && parsed->Ok_0.wf(),
        Err(e) => parsed == Err::<RangeExpansionRequest, StructuralError>(e),
    }
}

/// Replaces every identifier equal to `replacement_ident` by the literal,
/// at any depth, keeping each replaced identifier's position.
pub fn replace_ident(
    input: &Vec<TokenTree>,
    replacement_ident: &Ident,
    replacement_literal: &Literal,
) -> (output: Vec<TokenTree>)
    ensures
        stream_model(output@) == substitute(
            stream_model(input@),
            replacement_ident.name@,
            replacement_literal.text@,
        ),
    decreases input,
{
    let mut output: Vec<TokenTree> = Vec::new();
    let mut i: usize = 0;
    while i < input.len()
        invariant
            i <= input.len(),
            output@.len() == i,
            forall|k: int|
                0 <= k < i ==> tree_model(#[trigger] output@[k]) == substitute_tree(
                    tree_model(input@[k]),
                    replacement_ident.name@,
                    replacement_literal.text@,
                ),
        decreases input.len() - i,
    {
        let replaced = match &input[i] {
            TokenTree::Group(g) => {
                let stream = replace_ident(&g.stream, replacement_ident, replacement_literal);
                TokenTree::Group(Group { delimiter: g.delimiter, stream, span: g.span })
            },
            TokenTree::Ident(ident) => {
                if ident.name == replacement_ident.name {
                    TokenTree::Literal(
                        Literal { text: replacement_literal.text.clone(), span: ident.span },
                    )
                } else {
                    TokenTree::Ident(Ident { name: ident.name.clone(), span: ident.span })
                }
            },
            TokenTree::Punct(p) => TokenTree::Punct(
                crate::token::Punct { ch: p.ch, spacing: p.spacing, span: p.span },
            ),
            TokenTree::Literal(l) => TokenTree::Literal(
                Literal { text: l.text.clone(), span: l.span },
            ),
        };
        output.push(replaced);
        i += 1;
    }
    assert(stream_model(output@) =~= substitute(
        stream_model(input@),
        replacement_ident.name@,
        replacement_literal.text@,
    ));
    output
}

impl RangeExpansionRequest {
    /// Reads a request from the trees of an invocation, given what the
    /// lexer answered about the loop variable and the two bounds.
    pub fn header_of(
        input: &Vec<TokenTree>,
        loop_var_accepted: bool,
        start: Option<u64>,
        end: Option<u64>,
    ) -> (parsed: Result<RangeExpansionRequest, StructuralError>)
        ensures
            request_agrees(
                parsed,
                header(visible(stream_model(input@)), loop_var_accepted, start, end),
            ),
    {
        let seen = visible_trees(input);
        header_of_visible(&seen, loop_var_accepted, start, end)
    }

    /// Reads a request from the trees of an invocation. The lexer is asked
    /// whether the first visible tree's text is an identifier, and for the
    /// values of the third and the sixth where they begin as numbers do.
    /// The request or the error is the grammar's for what it answered.
    /// Where all its answers are known, a plain word for the loop variable
    /// and runs of digits for the bounds, that is one request or one error.
    /// No answer mends a header of the wrong shape, and where the first
    /// visible tree is no identifier nothing is asked and the error is
    /// certain.
    pub fn parse(input: &Vec<TokenTree>) -> (parsed: Result<RangeExpansionRequest, StructuralError>)
        ensures
            exists|accepted: bool, start: Option<u64>, end: Option<u64>|
                answers_fit(visible(stream_model(input@)), accepted, start, end)
                    && request_agrees(
                    parsed,
                    #[trigger] header(visible(stream_model(input@)), accepted, start, end),
                ),
            header_decided(visible(stream_model(input@))) ==> request_agrees(
                parsed,
                header(
                    visible(stream_model(input@)),
                    decided_loop_var(visible(stream_model(input@)))->0,
                    decided_bound(visible(stream_model(input@)), 2)->0,
                    decided_bound(visible(stream_model(input@)), 5)->0,
                ),
            ),
            header(visible(stream_model(input@)), true, Some(0u64), Some(0u64)) is Err
                ==> parsed is Err,
            loop_var_candidate(visible(stream_model(input@))) is None ==> parsed == Err::<
                RangeExpansionRequest,
                StructuralError,
            >(error_at(Reason::ExpectedIdentifier, visible(stream_model(input@)), 0)),
            parsed is Ok ==> parsed->Ok_0.wf(),
    {
        let seen = visible_trees(input);
        let (accepted, start, end) = header_answers(&seen);
        let parsed = header_of_visible(&seen, accepted, start, end);
        assert(request_agrees(
            parsed,
            header(visible(stream_model(input@)), accepted, start, end),
        ));
        parsed
    }

    /// The copies of the body for every index of the interval, in ascending
    /// order and without the body's own braces.
    pub fn expand(&self) -> (output: Vec<TokenTree>)
        requires
            self.wf(),
        ensures
            stream_model(output@) == expansion(
                self@.body,
                self@.loop_var.name,
                self@.start,
                self@.end,
            ),
    {
        let mut output: Vec<TokenTree> = Vec::new();
        let mut i: usize = self.start;
        while i < self.end
            invariant
                self.start <= i <= self.end,
                stream_model(output@) == expansion(
                    self@.body,
                    self@.loop_var.name,
                    self@.start,
                    i as int,
                ),
            decreases self.end - i,
        {
            let literal = Literal { text: unsuffixed_text(i), span: Span::CallSite };
            let mut copy = replace_ident(&self.body, &self.loop_var, &literal);
            proof {
                lemma_stream_model_concat(output@, copy@);
            }
            output.append(&mut copy);
            i += 1;
        }
        output
    }
}

/// The text that the lexer is asked about as the loop variable.
pub fn loop_var_text(trees: &Vec<TokenTree>) -> (text: Option<&str>)
    ensures
        match text {
            Some(t) => loop_var_candidate(stream_model(trees@)) == Some(t@),
            None => loop_var_candidate(stream_model(trees@)) is None,
        },
{
    if trees.len() == 0 {
        return None;
    }
    match &trees[0] {
        TokenTree::Ident(ident) => Some(ident.name.as_str()),
        _ => None,
    }
}

/// The text that the lexer is asked about as the bound at `index`.
pub fn bound_text(trees: &Vec<TokenTree>, index: usize) -> (text: Option<&str>)
    ensures
        match text {
            Some(t) => bound_candidate(stream_model(trees@), index as int) == Some(t@),
            None => bound_candidate(stream_model(trees@), index as int) is None,
        },
{
    if index >= trees.len() {
        return None;
    }
    match &trees[index] {
        TokenTree::Literal(literal) => {
            if asks_like_number(literal.text.as_str()) {
                Some(literal.text.as_str())
            } else {
                None
            }
        },
        _ => None,
    }
}

/// Asks the lexer what the header grammar needs to know of the visible
/// trees.
fn header_answers(seen: &Vec<TokenTree>) -> (answers: (bool, Option<u64>, Option<u64>))
    ensures
        answers_fit(stream_model(seen@), answers.0, answers.1, answers.2),
{
    let accepted = match loop_var_text(seen) {
        Some(text) => is_identifier(text),
        None => false,
    };
    let start = match bound_text(seen, 2) {
        Some(text) => parse_integer_literal(text),
        None => None,
    };
    let end = match bound_text(seen, 5) {
        Some(text) => parse_integer_literal(text),
        None => None,
    };
    (accepted, start, end)
}

/// The header grammar over the visible trees.
fn header_of_visible(
    seen: &Vec<TokenTree>,
    loop_var_accepted: bool,
    start: Option<u64>,
    end: Option<u64>,
) -> (parsed: Result<RangeExpansionRequest, StructuralError>)
    ensures
        request_agrees(parsed, header(stream_model(seen@), loop_var_accepted, start, end)),
{
    let n = seen.len();
    let loop_var = match loop_var_at(seen, loop_var_accepted) {
        Some(ident) => ident,
        None => {
            return Err(
                StructuralError { reason: Reason::ExpectedIdentifier, position: span_at(seen, 0) },
            );
        },
    };
    if !word_at(seen, 1, "in") {
        return Err(StructuralError { reason: Reason::ExpectedIn, position: span_at(seen, 1) });
    }
    let start = match bound_at(seen, 2, start) {
        Some(start) => start,
        None => {
            return Err(
                StructuralError {
                    reason: Reason::ExpectedIntegerLiteral,
                    position: span_at(seen, 2),
                },
            );
        },
    };
    if !(n > 4 && dot_at(seen, 3, true) && dot_at(seen, 4, false)) {
        return Err(StructuralError { reason: Reason::ExpectedRange, position: span_at(seen, 3) });
    }
    let end = match bound_at(seen, 5, end) {
        Some(end) => end,
        None => {
            return Err(
                StructuralError {
                    reason: Reason::ExpectedIntegerLiteral,
                    position: span_at(seen, 5),
                },
            );
        },
    };
    let body = match body_at(seen, 6) {
        Some(body) => body,
        None => {
            return Err(
                StructuralError { reason: Reason::ExpectedBraces, position: span_at(seen, 6) },
            );
        },
    };
    if n > 7 {
        return Err(StructuralError { reason: Reason::UnexpectedToken, position: span_at(seen, 7) });
    }
    if start > end {
        return Err(StructuralError { reason: Reason::DescendingRange, position: span_at(seen, 2) });
    }
    Ok(RangeExpansionRequest { loop_var, start, end, body })
}

/// The loop variable, if the input begins with an identifier and the lexer
/// accepted it.
fn loop_var_at(input: &Vec<TokenTree>, accepted: bool) -> (found: Option<Ident>)
    ensures
        match found {
            Some(ident) => input@.len() > 0 && stream_model(input@)[0] is Ident && accepted
                && ident@ == word_of(stream_model(input@)[0]),
            None => !(input@.len() > 0 && stream_model(input@)[0] is Ident && accepted),
        },
{
    if input.len() == 0 || !accepted {
        return None;
    }
    match &input[0] {
        TokenTree::Ident(ident) => Some(Ident { name: ident.name.clone(), span: ident.span }),
        _ => None,
    }
}

/// Whether the tree at `index` is the given word.
fn word_at(input: &Vec<TokenTree>, index: usize, word: &str) -> (found: bool)
    ensures
        found == (index < input@.len() && is_word(stream_model(input@)[index as int], word@)),
{
    if index >= input.len() {
        return false;
    }
    match &input[index] {
        TokenTree::Ident(ident) => text_is(&ident.name, word),
        _ => false,
    }
}

/// The bound that the tree at `index` states, where `value` is what the
/// lexer read from it.
fn bound_at(input: &Vec<TokenTree>, index: usize, value: Option<u64>) -> (found: Option<usize>)
    ensures
        match found {
            Some(bound) => index < input@.len() && bound_of(
                stream_model(input@)[index as int],
                value,
            ) == Some(bound),
            None => !(index < input@.len() && bound_of(stream_model(input@)[index as int], value)
                is Some),
        },
{
    if index >= input.len() {
        return None;
    }
    match &input[index] {
        TokenTree::Literal(literal) => {
            if asks_like_number(literal.text.as_str()) {
                index_of_value(value)
            } else {
                None
            }
        },
        _ => None,
    }
}

/// Whether the tree at `index` is a dot with the spacing asked for.
fn dot_at(input: &Vec<TokenTree>, index: usize, joint: bool) -> (found: bool)
    requires
        index < input@.len(),
    ensures
        found == is_dot(stream_model(input@)[index as int], joint),
{
    match &input[index] {
        TokenTree::Punct(p) => p.ch == '.' && (!joint || p.spacing == Spacing::Joint),
        _ => false,
    }
}

/// The contents of the braced group at `index`.
fn body_at(input: &Vec<TokenTree>, index: usize) -> (found: Option<Vec<TokenTree>>)
    ensures
        match found {
            Some(body) => index < input@.len() && is_braced(stream_model(input@)[index as int])
                && stream_model(body@) == contents(stream_model(input@)[index as int]),
            None => !(index < input@.len() && is_braced(stream_model(input@)[index as int])),
        },
{
    if index >= input.len() {
        return None;
    }
    match &input[index] {
        TokenTree::Group(g) => {
            if g.delimiter == Delimiter::Brace {
                Some(clone_stream(&g.stream))
            } else {
                None
            }
        },
        _ => None,
    }
}

/// Expands one invocation: the header is read, and the body is repeated for
/// each index of its range. The lexer is asked as for the header alone.
/// The expansion or the error is the one the grammar gives for what it
/// answered. Where all its answers are known, a plain word for the loop
/// variable and runs of digits for the bounds, that is one expansion or one
/// error. A header of the wrong shape gives an error and no output whatever
/// it answers.
pub fn seq(input: &Vec<TokenTree>) -> (result: Result<Vec<TokenTree>, StructuralError>)
    ensures
        exists|accepted: bool, start: Option<u64>, end: Option<u64>|
            answers_fit(visible(stream_model(input@)), accepted, start, end) && stream_agrees(
                result,
                #[trigger] seq_result(stream_model(input@), accepted, start, end),
            ),
        header_decided(visible(stream_model(input@))) ==> stream_agrees(
            result,
            seq_result(
                stream_model(input@),
                decided_loop_var(visible(stream_model(input@)))->0,
                decided_bound(visible(stream_model(input@)), 2)->0,
                decided_bound(visible(stream_model(input@)), 5)->0,
            ),
        ),
        seq_result(stream_model(input@), true, Some(0u64), Some(0u64)) is Err ==> result is Err,
        loop_var_candidate(visible(stream_model(input@))) is None ==> result == Err::<
            Vec<TokenTree>,
            StructuralError,
        >(error_at(Reason::ExpectedIdentifier, visible(stream_model(input@)), 0)),
{
    let seen = visible_trees(input);
    let (accepted, start, end) = header_answers(&seen);
    let result = match header_of_visible(&seen, accepted, start, end) {
        Ok(request) => Ok(request.expand()),
        Err(e) => Err(e),
    };
    assert(stream_agrees(result, seq_result(stream_model(input@), accepted, start, end)));
    result
}

/// The expansion is as long as the body times the length of the interval,
/// and its `k`-th stretch of the body's length is the body with the loop
/// variable replaced by `start + k`, written in decimal: the copies come in
/// ascending order of the index, and nothing stands between or around them.
pub proof fn lemma_expansion_is_the_copies_in_ascending_order(
    body: Seq<TokenModel>,
    var: Seq<char>,
    start: int,
    end: int,
    k: int,
)
    requires
        0 <= start <= end,
        0 <= k < end - start,
    ensures
        expansion(body, var, start, end).len() == (end - start) * body.len(),
        0 <= k * body.len() <= (k + 1) * body.len() <= expansion(body, var, start, end).len(),
        expansion(body, var, start, end).subrange(k * body.len(), (k + 1) * body.len())
            == substitute(body, var, decimal_text((start + k) as nat)),
    decreases end - start,
{
    let n = body.len() as int;
    let shorter = expansion(body, var, start, end - 1);
    let last = substitute(body, var, decimal_text((end - 1) as nat));
    lemma_expansion_length(body, var, start, end - 1);
    assert((end - start) * n == (end - 1 - start) * n + n) by (nonlinear_arith);
    assert(0 <= k * n && (k + 1) * n == k * n + n) by (nonlinear_arith)
        requires
            0 <= k,
            0 <= n,
    ;
    if k == end - 1 - start {
        assert(expansion(body, var, start, end).subrange(k * n, (k + 1) * n) =~= last);
    } else {
        lemma_expansion_is_the_copies_in_ascending_order(body, var, start, end - 1, k);
        assert((k + 1) * n <= (end - 1 - start) * n) by (nonlinear_arith)
            requires
                k + 1 <= end - 1 - start,
                0 <= n,
        ;
        assert(expansion(body, var, start, end).subrange(k * n, (k + 1) * n) =~= shorter.subrange(
            k * n,
            (k + 1) * n,
        ));
    }
}

/// The expansion is as long as the body times the length of the interval.
/// An empty interval gives the empty expansion.
pub proof fn lemma_expansion_length(body: Seq<TokenModel>, var: Seq<char>, start: int, end: int)
    requires
        start <= end,
    ensures
        expansion(body, var, start, end).len() == (end - start) * body.len(),
        start == end ==> expansion(body, var, start, end) == Seq::<TokenModel>::empty(),
    decreases end - start,
{
    let n = body.len() as int;
    if start < end {
        lemma_expansion_length(body, var, start, end - 1);
        assert((end - start) * n == (end - 1 - start) * n + n) by (nonlinear_arith);
    } else {
        assert((end - start) * n == 0) by (nonlinear_arith)
            requires
                end - start == 0,
        ;
    }
}

/// Reading a header is a function of the trees and of the lexer's answers:
/// two readings of inputs of the same value, with the same answers, give
/// the same error or requests of the same value.
pub proof fn lemma_header_is_deterministic(
    first: Vec<TokenTree>,
    second: Vec<TokenTree>,
    loop_var_accepted: bool,
    start: Option<u64>,
    end: Option<u64>,
    first_result: Result<RangeExpansionRequest, StructuralError>,
    second_result: Result<RangeExpansionRequest, StructuralError>,
)
    requires
        stream_model(first@) == stream_model(second@),
        call_ensures(
            RangeExpansionRequest::header_of,
            (&first, loop_var_accepted, start, end),
            first_result,
        ),
        call_ensures(
            RangeExpansionRequest::header_of,
            (&second, loop_var_accepted, start, end),
            second_result,
        ),
    ensures
        match (first_result, second_result) {
            (Ok(a), Ok(b)) => a@ == b@,
            (Err(a), Err(b)) => a == b,
            _ => false,
        },
{
}

/// Expanding is a function of the request: two expansions of requests of
/// the same value have the same value.
pub proof fn lemma_expand_is_deterministic(
    first: RangeExpansionRequest,
    second: RangeExpansionRequest,
    first_result: Vec<TokenTree>,
    second_result: Vec<TokenTree>,
)
    requires
        first@ == second@,
        first.wf(),
        call_ensures(RangeExpansionRequest::expand, (&first,), first_result),
        call_ensures(RangeExpansionRequest::expand, (&second,), second_result),
    ensures
        stream_model(first_result@) == stream_model(second_result@),
{
}

} // verus!
