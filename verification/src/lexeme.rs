//! What a single leaf's text means: which texts are identifiers, what
//! number or string a literal stands for, and how a number or a string is
//! written as a literal.
//!
//! The lexical rules of the language are not restated here. They are asked
//! of `syn` and `proc_macro2` through the small functions at the end of
//! this file. What those answer depends on the lexer at work, the
//! compiler's own inside a macro expansion and `proc_macro2`'s outside of
//! one. So their answers are claimed only for the plainest texts, on which
//! every lexer agrees: a run of digits, an identifier of letters, digits
//! and underscores, a string without escapes. The grammars that use the
//! answers take them as arguments.

use vstd::prelude::*;

verus! {

/// The character that writes the digit `d`.
pub open spec fn digit_char(d: nat) -> char
    recommends
        d < 10,
{
    (48 + d) as char
}

/// The decimal notation of `n`, without sign, padding or suffix.
pub open spec fn decimal_text(n: nat) -> Seq<char>
    decreases n,
{
    if n < 10 {
        seq![digit_char(n)]
    } else {
        decimal_text(n / 10).push(digit_char(n % 10))
    }
}

/// Whether a character is one of the ten digits.
pub open spec fn is_decimal_digit(c: char) -> bool {
    '0' <= c <= '9'
}

/// Whether a text begins as every number literal does: with a digit.
pub open spec fn begins_number(text: Seq<char>) -> bool {
    text.len() > 0 && is_decimal_digit(text[0])
}

/// Whether a text begins as every string literal does: with a double quote,
/// or with the `r` of a raw string.
pub open spec fn begins_string(text: Seq<char>) -> bool {
    text.len() > 0 && (text[0] == '"' || text[0] == 'r')
}

/// Whether a text holds a plus or a minus sign. Only the exponent of a
/// float brings one into a number literal.
pub open spec fn holds_sign(text: Seq<char>) -> bool {
    exists|i: int| 0 <= i < text.len() && is_sign(#[trigger] text[i])
}

/// Whether a character is a plus or a minus sign.
pub open spec fn is_sign(c: char) -> bool {
    c == '+' || c == '-'
}

/// Whether the lexer is asked for the value of a text: it begins as a
/// number does and holds no sign.
pub open spec fn asks_number(text: Seq<char>) -> bool {
    begins_number(text) && !holds_sign(text)
}

/// Whether a text is a run of one or more decimal digits.
pub open spec fn is_digits(text: Seq<char>) -> bool {
    text.len() > 0 && forall|i: int| 0 <= i < text.len() ==> is_decimal_digit(#[trigger] text[i])
}

/// The number that the first `count` characters of a run of decimal digits
/// write.
pub open spec fn digits_value_of(text: Seq<char>, count: nat) -> nat
    decreases count,
{
    if count == 0 {
        0
    } else {
        (digits_value_of(text, (count - 1) as nat) * 10 + (text[count - 1] as nat - 48)) as nat
    }
}

/// The number that a run of decimal digits writes.
pub open spec fn digits_value(text: Seq<char>) -> nat {
    digits_value_of(text, text.len())
}

/// What every lexer reads from a number text, where that is known: a run of
/// decimal digits has its value, if that fits 64 bits, and else none.
pub open spec fn known_integer(text: Seq<char>) -> Option<Option<u64>> {
    if is_digits(text) {
        if digits_value(text) <= u64::MAX {
            Some(Some(digits_value(text) as u64))
        } else {
            Some(None)
        }
    } else {
        None
    }
}

/// Whether a character is a letter of the ASCII alphabet.
pub open spec fn is_ascii_letter(c: char) -> bool {
    ('a' <= c <= 'z') || ('A' <= c <= 'Z')
}

/// Whether a text is made of ASCII letters, digits and underscores and does
/// not begin with a digit.
pub open spec fn is_plain_word(text: Seq<char>) -> bool {
    &&& text.len() > 0
    &&& !is_decimal_digit(text[0])
    &&& forall|i: int|
        0 <= i < text.len() ==> is_ascii_letter(#[trigger] text[i]) || is_decimal_digit(text[i])
            || text[i] == '_'
}

/// Whether a text of two characters is spelled with the given ones.
pub open spec fn spells_two(text: Seq<char>, c0: char, c1: char) -> bool {
    text[0] == c0 && text[1] == c1
}

/// Whether a text of three characters is spelled with the given ones.
pub open spec fn spells_three(text: Seq<char>, c0: char, c1: char, c2: char) -> bool {
    text[0] == c0 && text[1] == c1 && text[2] == c2
}

/// Whether a text of four characters is spelled with the given ones.
pub open spec fn spells_four(text: Seq<char>, c0: char, c1: char, c2: char, c3: char) -> bool {
    text[0] == c0 && text[1] == c1 && text[2] == c2 && text[3] == c3
}

/// Whether a text of five characters is spelled with the given ones.
pub open spec fn spells_five(
    text: Seq<char>,
    c0: char,
    c1: char,
    c2: char,
    c3: char,
    c4: char,
) -> bool {
    &&& text[0] == c0
    &&& text[1] == c1
    &&& text[2] == c2
    &&& text[3] == c3
    &&& text[4] == c4
}

/// Whether a text of six characters is spelled with the given ones.
pub open spec fn spells_six(
    text: Seq<char>,
    c0: char,
    c1: char,
    c2: char,
    c3: char,
    c4: char,
    c5: char,
) -> bool {
    &&& text[0] == c0
    &&& text[1] == c1
    &&& text[2] == c2
    &&& text[3] == c3
    &&& text[4] == c4
    &&& text[5] == c5
}

/// Whether a text of seven characters is spelled with the given ones.
pub open spec fn spells_seven(
    text: Seq<char>,
    c0: char,
    c1: char,
    c2: char,
    c3: char,
    c4: char,
    c5: char,
    c6: char,
) -> bool {
    &&& text[0] == c0
    &&& text[1] == c1
    &&& text[2] == c2
    &&& text[3] == c3
    &&& text[4] == c4
    &&& text[5] == c5
    &&& text[6] == c6
}

/// Whether a text of eight characters is spelled with the given ones.
pub open spec fn spells_eight(
    text: Seq<char>,
    c0: char,
    c1: char,
    c2: char,
    c3: char,
    c4: char,
    c5: char,
    c6: char,
    c7: char,
) -> bool {
    &&& text[0] == c0
    &&& text[1] == c1
    &&& text[2] == c2
    &&& text[3] == c3
    &&& text[4] == c4
    &&& text[5] == c5
    &&& text[6] == c6
    &&& text[7] == c7
}

/// The words that `syn` accepts as no identifier: the lone underscore and
/// the keywords it reserves, here by length and spelled letter by letter.
pub open spec fn is_reserved(text: Seq<char>) -> bool {
    if text.len() == 1 {
        text[0] == '_'
    } else if text.len() == 2 {
        ||| spells_two(text, 'a', 's')
        ||| spells_two(text, 'd', 'o')
        ||| spells_two(text, 'f', 'n')
        ||| spells_two(text, 'i', 'f')
        ||| spells_two(text, 'i', 'n')
    } else if text.len() == 3 {
        ||| spells_three(text, 'b', 'o', 'x')
        ||| spells_three(text, 'f', 'o', 'r')
        ||| spells_three(text, 'l', 'e', 't')
        ||| spells_three(text, 'm', 'o', 'd')
        ||| spells_three(text, 'm', 'u', 't')
        ||| spells_three(text, 'p', 'u', 'b')
        ||| spells_three(text, 'r', 'e', 'f')
        ||| spells_three(text, 'u', 's', 'e')
    } else if text.len() == 4 {
        ||| spells_four(text, 'e', 'l', 's', 'e')
        ||| spells_four(text, 'e', 'n', 'u', 'm')
        ||| spells_four(text, 'i', 'm', 'p', 'l')
        ||| spells_four(text, 'l', 'o', 'o', 'p')
        ||| spells_four(text, 'm', 'o', 'v', 'e')
        ||| spells_four(text, 'p', 'r', 'i', 'v')
        ||| spells_four(text, 'S', 'e', 'l', 'f')
        ||| spells_four(text, 's', 'e', 'l', 'f')
        ||| spells_four(text, 't', 'r', 'u', 'e')
        ||| spells_four(text, 't', 'y', 'p', 'e')
    } else if text.len() == 5 {
        ||| spells_five(text, 'b', 'r', 'e', 'a', 'k')
        ||| spells_five(text, 'c', 'o', 'n', 's', 't')
        ||| spells_five(text, 'c', 'r', 'a', 't', 'e')
        ||| spells_five(text, 'f', 'a', 'l', 's', 'e')
        ||| spells_five(text, 'f', 'i', 'n', 'a', 'l')
        ||| spells_five(text, 'm', 'a', 'c', 'r', 'o')
        ||| spells_five(text, 'm', 'a', 't', 'c', 'h')
        ||| spells_five(text, 's', 'u', 'p', 'e', 'r')
        ||| spells_five(text, 't', 'r', 'a', 'i', 't')
        ||| spells_five(text, 'w', 'h', 'e', 'r', 'e')
        ||| spells_five(text, 'w', 'h', 'i', 'l', 'e')
        ||| spells_five(text, 'y', 'i', 'e', 'l', 'd')
    } else if text.len() == 6 {
        ||| spells_six(text, 'b', 'e', 'c', 'o', 'm', 'e')
        ||| spells_six(text, 'e', 'x', 't', 'e', 'r', 'n')
        ||| spells_six(text, 'r', 'e', 't', 'u', 'r', 'n')
        ||| spells_six(text, 's', 't', 'a', 't', 'i', 'c')
        ||| spells_six(text, 's', 't', 'r', 'u', 'c', 't')
        ||| spells_six(text, 't', 'y', 'p', 'e', 'o', 'f')
        ||| spells_six(text, 'u', 'n', 's', 'a', 'f', 'e')
    } else if text.len() == 7 {
        ||| spells_seven(text, 'u', 'n', 's', 'i', 'z', 'e', 'd')
        ||| spells_seven(text, 'v', 'i', 'r', 't', 'u', 'a', 'l')
    } else if text.len() == 8 {
        ||| spells_eight(text, 'a', 'b', 's', 't', 'r', 'a', 'c', 't')
        ||| spells_eight(text, 'c', 'o', 'n', 't', 'i', 'n', 'u', 'e')
        ||| spells_eight(text, 'o', 'v', 'e', 'r', 'r', 'i', 'd', 'e')
    } else {
        false
    }
}

/// What every lexer answers about a text as an identifier, where that is
/// known: a reserved word is refused, and any other plain word is accepted.
pub open spec fn known_identifier(text: Seq<char>) -> Option<bool> {
    if is_reserved(text) {
        Some(false)
    } else if is_plain_word(text) {
        Some(true)
    } else {
        None
    }
}

/// Whether a text is a string in double quotes with no backslash, double
/// quote or carriage return between them.
pub open spec fn is_plain_string(text: Seq<char>) -> bool {
    &&& text.len() >= 2
    &&& text[0] == '"'
    &&& text.last() == '"'
    &&& forall|i: int|
        1 <= i < text.len() - 1 ==> (#[trigger] text[i]) != '\\' && text[i] != '"' && text[i]
            != '\r'
}

/// What every lexer reads from a string text, where that is known: a plain
/// string denotes what stands between its quotes.
pub open spec fn known_string(text: Seq<char>) -> Option<Seq<char>> {
    if is_plain_string(text) {
        Some(text.subrange(1, text.len() - 1))
    } else {
        None
    }
}

/// A literal's value as an index, where it fits the machine's word.
pub open spec fn fitting_index(value: Option<u64>) -> Option<usize> {
    match value {
        Some(v) => if v <= usize::MAX {
            Some(v as usize)
        } else {
            None
        },
        None => None,
    }
}

/// Whether a text begins as a number literal does.
pub fn begins_like_number(text: &str) -> (begins: bool)
    ensures
        begins == begins_number(text@),
{
    if text.unicode_len() == 0 {
        return false;
    }
    let first = text.get_char(0);
    '0' <= first && first <= '9'
}

/// Whether a text holds a plus or a minus sign.
pub fn holds_a_sign(text: &str) -> (holds: bool)
    ensures
        holds == holds_sign(text@),
{
    let n = text.unicode_len();
    let mut i: usize = 0;
    while i < n
        invariant
            i <= n,
            n == text@.len(),
            forall|k: int| 0 <= k < i ==> !is_sign(#[trigger] text@[k]),
        decreases n - i,
    {
        let c = text.get_char(i);
        if c == '+' || c == '-' {
            assert(is_sign(text@[i as int]));
            return true;
        }
        i += 1;
    }
    false
}

/// Whether the lexer is asked for the value of a text.
pub fn asks_like_number(text: &str) -> (asks: bool)
    ensures
        asks == asks_number(text@),
{
    begins_like_number(text) && !holds_a_sign(text)
}

/// Whether a text begins as a string literal does.
pub fn begins_like_string(text: &str) -> (begins: bool)
    ensures
        begins == begins_string(text@),
{
    if text.unicode_len() == 0 {
        return false;
    }
    let first = text.get_char(0);
    first == '"' || first == 'r'
}

/// A literal's value as an index, where it fits the machine's word.
pub fn index_of_value(value: Option<u64>) -> (index: Option<usize>)
    ensures
        index == fitting_index(value),
{
    match value {
        Some(v) => {
            if v <= usize::MAX as u64 {
                Some(v as usize)
            } else {
                None
            }
        },
        None => None,
    }
}

/// `syn::parse_str::<syn::Ident>`: whether the text, once lexed, is exactly
/// one identifier that `syn` does not reserve as a keyword. The answer is
/// claimed only where every lexer agrees: a word that `syn` reserves is
/// refused, and any other word of ASCII letters, digits and underscores is
/// accepted.
#[verifier::external_body]
pub(crate) fn is_identifier(text: &str) -> (accepted: bool)
    ensures
        known_identifier(text@) matches Some(known) ==> accepted == known,
{
    syn::parse_str::<syn::Ident>(text).is_ok()
}

/// `syn::LitInt::base10_parse::<u64>` on the literal that
/// `syn::parse_str::<syn::LitInt>` finds in the text, `None` where it finds
/// none or the value exceeds 64 bits. The answer is claimed only for a run
/// of decimal digits, which has its value. The leading digit is required
/// because `syn` aborts on literal kinds it does not know, and a sign is
/// kept out because it aborts on a number that a lexer lets through with
/// an exponent it cannot read.
#[verifier::external_body]
pub(crate) fn parse_integer_literal(text: &str) -> (value: Option<u64>)
    requires
        asks_number(text@),
    ensures
        known_integer(text@) matches Some(known) ==> value == known,
{
    match syn::parse_str::<syn::LitInt>(text) {
        Ok(literal) => literal.base10_parse::<u64>().ok(),
        Err(_) => None,
    }
}

/// `syn::LitStr::value` on the literal that `syn::parse_str::<syn::LitStr>`
/// finds in the text, `None` where it finds none. The answer is claimed
/// only for a string in double quotes without backslash, double quote or
/// carriage return inside, which denotes its inside. The leading quote or
/// `r` is required because `syn` aborts on literal kinds it does not know.
#[verifier::external_body]
pub(crate) fn parse_string_literal(text: &str) -> (value: Option<String>)
    requires
        begins_string(text@),
    ensures
        known_string(text@) matches Some(known) ==> value.deep_view() == Some(known),
{
    match syn::parse_str::<syn::LitStr>(text) {
        Ok(literal) => Some(literal.value()),
        Err(_) => None,
    }
}

/// `proc_macro2::Literal::usize_unsuffixed`, printed: the decimal digits of
/// `n` and nothing else.
#[verifier::external_body]
pub(crate) fn unsuffixed_text(n: usize) -> (text: String)
    ensures
        text@ == decimal_text(n as nat),
{
    proc_macro2::Literal::usize_unsuffixed(n).to_string()
}

/// `proc_macro2::Literal::string`, printed: the text of a string literal
/// that denotes `value`. Which escapes it is written with is the lexer's
/// choice, and nothing is claimed of the answer.
#[verifier::external_body]
pub(crate) fn quoted_text(value: &str) -> (text: String) {
    proc_macro2::Literal::string(value).to_string()
}

} // verus!
