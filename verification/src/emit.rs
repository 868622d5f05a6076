//! Building generated code tree by tree.
//!
//! Everything generated carries the call-site position; what is taken over
//! from the input keeps its own.

use crate::token::{
    clone_stream, lemma_stream_model_concat, stream_model, tree_model, Delimiter, Group, Ident,
    IdentModel, Literal, Punct, Spacing, Span, TokenModel, TokenTree,
};
use vstd::prelude::*;

verus! {

/// A generated word.
pub open spec fn word(text: Seq<char>) -> TokenModel {
    TokenModel::Ident { name: text, span: Span::CallSite }
}

/// A generated punctuation character that stands alone.
pub open spec fn alone(ch: char) -> TokenModel {
    TokenModel::Punct { ch, spacing: Spacing::Alone, span: Span::CallSite }
}

/// A generated punctuation character glued to the next.
pub open spec fn joint(ch: char) -> TokenModel {
    TokenModel::Punct { ch, spacing: Spacing::Joint, span: Span::CallSite }
}

/// A generated literal.
pub open spec fn literal(text: Seq<char>) -> TokenModel {
    TokenModel::Literal { text, span: Span::CallSite }
}

/// A generated group.
pub open spec fn group(delimiter: Delimiter, stream: Seq<TokenModel>) -> TokenModel {
    TokenModel::Group { delimiter, stream, span: Span::CallSite }
}

/// An identifier of the input, at its own position.
pub open spec fn named(ident: IdentModel) -> TokenModel {
    TokenModel::Ident { name: ident.name, span: ident.span }
}

/// The path `std::module::item`.
pub open spec fn std_path(module: Seq<char>, item: Seq<char>) -> Seq<TokenModel> {
    seq![
        word("std"@),
        joint(':'),
        alone(':'),
        word(module),
        joint(':'),
        alone(':'),
        word(item),
    ]
}

/// The arrow `->`.
pub open spec fn arrow() -> Seq<TokenModel> {
    seq![joint('-'), alone('>')]
}

/// The pieces one after the other.
pub open spec fn concat(pieces: Seq<Seq<TokenModel>>) -> Seq<TokenModel>
    decreases pieces.len(),
{
    if pieces.len() == 0 {
        Seq::empty()
    } else {
        concat(pieces.drop_last()) + pieces.last()
    }
}

/// The pieces one after the other with a comma between each two.
pub open spec fn comma_separated(pieces: Seq<Seq<TokenModel>>) -> Seq<TokenModel>
    decreases pieces.len(),
{
    if pieces.len() == 0 {
        Seq::empty()
    } else if pieces.len() == 1 {
        pieces[0]
    } else {
        comma_separated(pieces.drop_last()) + seq![alone(',')] + pieces.last()
    }
}

/// A run of no trees.
pub fn new_stream() -> (out: Vec<TokenTree>)
    ensures
        stream_model(out@) == Seq::<TokenModel>::empty(),
{
    let out: Vec<TokenTree> = Vec::new();
    assert(stream_model(out@) =~= Seq::<TokenModel>::empty());
    out
}

/// Appends one tree.
pub fn push_tree(out: &mut Vec<TokenTree>, tree: TokenTree)
    ensures
        stream_model(final(out)@) == stream_model(old(out)@).push(tree_model(tree)),
{
    out.push(tree);
    assert(stream_model(out@) =~= stream_model(old(out)@).push(tree_model(tree)));
}

/// Appends a generated word.
pub fn push_word(out: &mut Vec<TokenTree>, text: &str)
    ensures
        stream_model(final(out)@) == stream_model(old(out)@).push(word(text@)),
{
    push_tree(out, TokenTree::Ident(Ident { name: text.to_owned(), span: Span::CallSite }));
}

/// Appends a generated punctuation character that stands alone.
pub fn push_alone(out: &mut Vec<TokenTree>, ch: char)
    ensures
        stream_model(final(out)@) == stream_model(old(out)@).push(alone(ch)),
{
    push_tree(out, TokenTree::Punct(Punct { ch, spacing: Spacing::Alone, span: Span::CallSite }));
}

/// Appends a generated punctuation character glued to the next.
pub fn push_joint(out: &mut Vec<TokenTree>, ch: char)
    ensures
        stream_model(final(out)@) == stream_model(old(out)@).push(joint(ch)),
{
    push_tree(out, TokenTree::Punct(Punct { ch, spacing: Spacing::Joint, span: Span::CallSite }));
}

/// Appends a generated literal with the given text.
pub fn push_literal(out: &mut Vec<TokenTree>, text: String)
    ensures
        stream_model(final(out)@) == stream_model(old(out)@).push(literal(text@)),
{
    push_tree(out, TokenTree::Literal(Literal { text, span: Span::CallSite }));
}

/// Appends a generated group around the given trees.
pub fn push_group(out: &mut Vec<TokenTree>, delimiter: Delimiter, stream: Vec<TokenTree>)
    ensures
        stream_model(final(out)@) == stream_model(old(out)@).push(
            group(delimiter, stream_model(stream@)),
        ),
{
    push_tree(out, TokenTree::Group(Group { delimiter, stream, span: Span::CallSite }));
}

/// Appends an identifier of the input, at its own position.
pub fn push_named(out: &mut Vec<TokenTree>, ident: &Ident)
    ensures
        stream_model(final(out)@) == stream_model(old(out)@).push(named(ident@)),
{
    push_tree(out, TokenTree::Ident(Ident { name: ident.name.clone(), span: ident.span }));
}

/// Appends a copy of a run of trees.
pub fn push_all(out: &mut Vec<TokenTree>, tokens: &Vec<TokenTree>)
    ensures
        stream_model(final(out)@) == stream_model(old(out)@) + stream_model(tokens@),
{
    let mut copy = clone_stream(tokens);
    proof {
        lemma_stream_model_concat(out@, copy@);
    }
    out.append(&mut copy);
}

/// Appends a run of trees, which is used up.
pub fn push_owned(out: &mut Vec<TokenTree>, tokens: Vec<TokenTree>)
    ensures
        stream_model(final(out)@) == stream_model(old(out)@) + stream_model(tokens@),
{
    let mut tokens = tokens;
    proof {
        lemma_stream_model_concat(out@, tokens@);
    }
    out.append(&mut tokens);
}

/// Appends the path `std::module::item`.
pub fn push_std_path(out: &mut Vec<TokenTree>, module: &str, item: &str)
    ensures
        stream_model(final(out)@) == stream_model(old(out)@) + std_path(module@, item@),
{
    push_word(out, "std");
    push_joint(out, ':');
    push_alone(out, ':');
    push_word(out, module);
    push_joint(out, ':');
    push_alone(out, ':');
    push_word(out, item);
    assert(stream_model(out@) =~= stream_model(old(out)@) + std_path(module@, item@));
}

/// Appends the arrow `->`.
pub fn push_arrow(out: &mut Vec<TokenTree>)
    ensures
        stream_model(final(out)@) == stream_model(old(out)@) + arrow(),
{
    push_joint(out, '-');
    push_alone(out, '>');
    assert(stream_model(out@) =~= stream_model(old(out)@) + arrow());
}

} // verus!
