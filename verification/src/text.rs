//! The few operations on names and messages that the synthesizer needs.

use crate::token::{Ident, IdentModel};
use vstd::prelude::*;

verus! {

/// The text without the double quotes it begins with.
pub open spec fn trim_start(s: Seq<char>) -> Seq<char>
    decreases s.len(),
{
    if s.len() > 0 && s[0] == '"' {
        trim_start(s.skip(1))
    } else {
        s
    }
}

/// The text without the double quotes it ends with.
pub open spec fn trim_end(s: Seq<char>) -> Seq<char>
    decreases s.len(),
{
    if s.len() > 0 && s.last() == '"' {
        trim_end(s.drop_last())
    } else {
        s
    }
}

/// The text without the double quotes around it, however many.
pub open spec fn trimmed(s: Seq<char>) -> Seq<char> {
    trim_end(trim_start(s))
}

/// A name without the `r#` that marks a raw identifier.
pub open spec fn plain_name(name: Seq<char>) -> Seq<char> {
    if name.len() >= 2 && name[0] == 'r' && name[1] == '#' {
        name.skip(2)
    } else {
        name
    }
}

/// The name of the builder type for an aggregate: the aggregate's plain
/// name and the suffix `Builder`.
pub open spec fn builder_name(name: Seq<char>) -> Seq<char> {
    plain_name(name) + "Builder"@
}

/// The text of the error that the finalizer returns for an unset field.
pub open spec fn missing_message(name: Seq<char>) -> Seq<char> {
    "field \""@ + name + "\" is None"@
}

/// Removes the double quotes around a text.
pub fn trim_quotes(s: &str) -> (trimmed_text: String)
    ensures
        trimmed_text@ == trimmed(s@),
{
    let n = s.unicode_len();
    let mut from: usize = 0;
    assert(s@.skip(0) =~= s@);
    while from < n && s.get_char(from) == '"'
        invariant
            from <= n,
            n == s@.len(),
            trim_start(s@) == trim_start(s@.skip(from as int)),
        decreases n - from,
    {
        assert(s@.skip(from as int).skip(1) =~= s@.skip(from as int + 1));
        from += 1;
    }
    let mut to: usize = n;
    assert(s@.skip(from as int) =~= s@.subrange(from as int, to as int));
    while to > from && s.get_char(to - 1) == '"'
        invariant
            from <= to <= n,
            n == s@.len(),
            trimmed(s@) == trim_end(s@.subrange(from as int, to as int)),
        decreases to - from,
    {
        assert(s@.subrange(from as int, to as int).drop_last() =~= s@.subrange(
            from as int,
            to as int - 1,
        ));
        to -= 1;
    }
    s.substring_char(from, to).to_owned()
}

/// The identifier of the builder type, at the aggregate's position.
pub fn builder_ident(ident: &Ident) -> (builder: Ident)
    ensures
        builder@ == (IdentModel { name: builder_name(ident.name@), span: ident.span }),
{
    let text = ident.name.as_str();
    let n = text.unicode_len();
    let raw = n >= 2 && text.get_char(0) == 'r' && text.get_char(1) == '#';
    let mut name = if raw {
        text.substring_char(2, n).to_owned()
    } else {
        text.to_owned()
    };
    assert(name@ =~= plain_name(ident.name@));
    name.append("Builder");
    Ident { name, span: ident.span }
}

/// The text of the error that the finalizer returns for an unset field.
pub fn missing_value_message(name: &str) -> (message: String)
    ensures
        message@ == missing_message(name@),
{
    let mut message = "field \"".to_owned();
    message.append(name);
    message.append("\" is None");
    message
}

} // verus!
