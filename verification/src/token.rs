//! The token tree that both engines read and write.
//!
//! A tree is either a delimited group of further trees or a leaf
//! (punctuation, identifier, literal). Every node carries the position it
//! came from, so that what is generated can point back at what was written.

use vstd::prelude::*;

verus! {

/// Where a node came from: an entry of the host's position table, or the
/// site of the macro invocation itself.
#[derive(Clone, Copy, Debug, PartialEq, Eq, Hash, Structural)]
pub enum Span {
    CallSite,
    Source(u64),
}

/// The bracket kind of a group. `Invisible` is a group without written
/// brackets, as a macro substitution leaves it.
#[derive(Clone, Copy, Debug, PartialEq, Eq, Hash, Structural)]
pub enum Delimiter {
    Parenthesis,
    Brace,
    Bracket,
    Invisible,
}

/// Whether a punctuation character is glued to the one that follows.
#[derive(Clone, Copy, Debug, PartialEq, Eq, Hash, Structural)]
pub enum Spacing {
    Alone,
    Joint,
}

#[derive(Clone, Debug, PartialEq, Eq)]
pub struct Ident {
    pub name: String,
    pub span: Span,
}

#[derive(Clone, Debug, PartialEq, Eq)]
pub struct Punct {
    pub ch: char,
    pub spacing: Spacing,
    pub span: Span,
}

#[derive(Clone, Debug, PartialEq, Eq)]
pub struct Literal {
    pub text: String,
    pub span: Span,
}

#[derive(Debug, PartialEq, Eq)]
pub struct Group {
    pub delimiter: Delimiter,
    pub stream: Vec<TokenTree>,
    pub span: Span,
}

#[derive(Debug, PartialEq, Eq)]
pub enum TokenTree {
    Group(Group),
    Punct(Punct),
    Ident(Ident),
    Literal(Literal),
}

/// The mathematical value of an identifier.
pub struct IdentModel {
    pub name: Seq<char>,
    pub span: Span,
}

/// The mathematical value of a token tree.
pub enum TokenModel {
    Group { delimiter: Delimiter, stream: Seq<TokenModel>, span: Span },
    Punct { ch: char, spacing: Spacing, span: Span },
    Ident { name: Seq<char>, span: Span },
    Literal { text: Seq<char>, span: Span },
}

impl View for Ident {
    type V = IdentModel;

    open spec fn view(&self) -> IdentModel {
        IdentModel { name: self.name@, span: self.span }
    }
}

/// The value of one tree.
pub open spec fn tree_model(t: TokenTree) -> TokenModel
    decreases t,
{
    match t {
        TokenTree::Group(g) => TokenModel::Group {
            delimiter: g.delimiter,
            stream: stream_model(g.stream@),
            span: g.span,
        },
        TokenTree::Punct(p) => TokenModel::Punct { ch: p.ch, spacing: p.spacing, span: p.span },
        TokenTree::Ident(i) => TokenModel::Ident { name: i.name@, span: i.span },
        TokenTree::Literal(l) => TokenModel::Literal { text: l.text@, span: l.span },
    }
}

/// The value of a run of trees, tree by tree.
pub open spec fn stream_model(ts: Seq<TokenTree>) -> Seq<TokenModel>
    decreases ts,
{
    Seq::new(ts.len(), |i: int| if 0 <= i < ts.len() { tree_model(ts[i]) } else { arbitrary() })
}

impl View for TokenTree {
    type V = TokenModel;

    open spec fn view(&self) -> TokenModel {
        tree_model(*self)
    }
}

impl TokenModel {
    /// The position the node came from.
    pub open spec fn span(self) -> Span {
        match self {
            TokenModel::Group { span, .. } => span,
            TokenModel::Punct { span, .. } => span,
            TokenModel::Ident { span, .. } => span,
            TokenModel::Literal { span, .. } => span,
        }
    }
}

impl TokenTree {
    /// The position the node came from.
    pub fn span(&self) -> (span: Span)
        ensures
            span == self@.span(),
    {
        match self {
            TokenTree::Group(g) => g.span,
            TokenTree::Punct(p) => p.span,
            TokenTree::Ident(i) => i.span,
            TokenTree::Literal(l) => l.span,
        }
    }
}

/// The position of the tree at `index`, or the call site where the run has
/// ended before it.
pub open spec fn position_at(ts: Seq<TokenModel>, index: int) -> Span {
    if 0 <= index < ts.len() {
        ts[index].span()
    } else {
        Span::CallSite
    }
}

/// The position of the tree at `index`, or the call site where the run has
/// ended before it.
pub fn span_at(tokens: &Vec<TokenTree>, index: usize) -> (span: Span)
    ensures
        span == position_at(stream_model(tokens@), index as int),
{
    if index < tokens.len() {
        tokens[index].span()
    } else {
        Span::CallSite
    }
}

/// What a parser sees of one tree: the tree itself, or, for a group
/// without written brackets, what it sees of the group's contents.
pub open spec fn visible_tree(t: TokenModel) -> Seq<TokenModel>
    decreases t,
{
    match t {
        TokenModel::Group { delimiter, stream, span } => if delimiter == Delimiter::Invisible {
            visible(stream)
        } else {
            seq![t]
        },
        _ => seq![t],
    }
}

/// What a parser sees of a run of trees: the run with every group without
/// written brackets replaced by its contents, at any depth of such groups.
/// Groups with brackets are not entered.
pub open spec fn visible(ts: Seq<TokenModel>) -> Seq<TokenModel>
    decreases ts,
{
    if ts.len() == 0 {
        Seq::empty()
    } else {
        visible(ts.drop_last()) + visible_tree(ts.last())
    }
}

/// A run of trees as a parser sees it.
pub fn visible_trees(input: &Vec<TokenTree>) -> (output: Vec<TokenTree>)
    ensures
        stream_model(output@) == visible(stream_model(input@)),
    decreases input,
{
    let ghost ts = stream_model(input@);
    let mut output: Vec<TokenTree> = Vec::new();
    assert(stream_model(output@) =~= visible(ts.take(0)));
    let mut i: usize = 0;
    while i < input.len()
        invariant
            i <= input.len(),
            ts == stream_model(input@),
            stream_model(output@) == visible(ts.take(i as int)),
        decreases input.len() - i,
    {
        let mut seen = match &input[i] {
            TokenTree::Group(g) => {
                if g.delimiter == Delimiter::Invisible {
                    visible_trees(&g.stream)
                } else {
                    vec![clone_tree(&input[i])]
                }
            },
            _ => vec![clone_tree(&input[i])],
        };
        assert(stream_model(seen@) =~= visible_tree(ts[i as int]));
        assert(ts.take(i as int + 1).drop_last() =~= ts.take(i as int));
        proof {
            lemma_stream_model_concat(output@, seen@);
        }
        output.append(&mut seen);
        i += 1;
    }
    assert(ts.take(i as int) =~= ts);
    output
}

/// Whether a tree is the given word.
pub open spec fn is_word(t: TokenModel, word: Seq<char>) -> bool {
    t matches TokenModel::Ident { name, .. } && name == word
}

/// Whether a text is exactly the given word.
pub fn text_is(text: &String, word: &str) -> (same: bool)
    ensures
        same == (text@ == word@),
{
    let other = word.to_owned();
    *text == other
}

/// Whether an outcome is the one expected: the same error, or trees of the
/// expected value.
pub open spec fn stream_agrees<E>(
    result: Result<Vec<TokenTree>, E>,
    expected: Result<Seq<TokenModel>, E>,
) -> bool {
    match expected {
        Ok(trees) => result is Ok && stream_model(result->Ok_0@) == trees,
        Err(e) => result == Err::<Vec<TokenTree>, E>(e),
    }
}

/// A run followed by another has the value of the first followed by the
/// value of the second.
pub proof fn lemma_stream_model_concat(a: Seq<TokenTree>, b: Seq<TokenTree>)
    ensures
        stream_model(a + b) == stream_model(a) + stream_model(b),
{
    assert(stream_model(a + b) =~= stream_model(a) + stream_model(b));
}

/// Copies a run of trees.
pub fn clone_stream(tokens: &Vec<TokenTree>) -> (copy: Vec<TokenTree>)
    ensures
        stream_model(copy@) == stream_model(tokens@),
    decreases tokens,
{
    let mut copy: Vec<TokenTree> = Vec::new();
    let mut i: usize = 0;
    while i < tokens.len()
        invariant
            i <= tokens.len(),
            copy@.len() == i,
            forall|k: int| 0 <= k < i ==> tree_model(#[trigger] copy@[k]) == tree_model(tokens@[k]),
        decreases tokens.len() - i,
    {
        let t = clone_tree(&tokens[i]);
        copy.push(t);
        i += 1;
    }
    assert(stream_model(copy@) =~= stream_model(tokens@));
    copy
}

/// Copies one tree.
pub fn clone_tree(tree: &TokenTree) -> (copy: TokenTree)
    ensures
        tree_model(copy) == tree_model(*tree),
    decreases tree,
{
    match tree {
        TokenTree::Group(g) => TokenTree::Group(
            Group { delimiter: g.delimiter, stream: clone_stream(&g.stream), span: g.span },
        ),
        TokenTree::Punct(p) => TokenTree::Punct(Punct { ch: p.ch, spacing: p.spacing, span: p.span }),
        TokenTree::Ident(i) => TokenTree::Ident(Ident { name: i.name.clone(), span: i.span }),
        TokenTree::Literal(l) => TokenTree::Literal(Literal { text: l.text.clone(), span: l.span }),
    }
}

} // verus!
