use macro_engines::error::{Reason, StructuralError};
use macro_engines::lexeme::{
    asks_like_number, begins_like_number, begins_like_string, holds_a_sign, index_of_value,
};
use macro_engines::seq::{bound_text, loop_var_text, replace_ident, RangeExpansionRequest};
use macro_engines::token::{
    clone_stream, clone_tree, span_at, text_is, visible_trees, Delimiter, Group, Ident, Literal,
    Punct, Spacing, Span, TokenTree,
};
use std::str::FromStr;

fn to_model(stream: proc_macro2::TokenStream, next: &mut u64) -> Vec<TokenTree> {
    let mut out = Vec::new();
    for tree in stream {
        let span = Span::Source(*next);
        *next += 1;
        out.push(match tree {
            proc_macro2::TokenTree::Group(g) => TokenTree::Group(Group {
                delimiter: match g.delimiter() {
                    proc_macro2::Delimiter::Parenthesis => Delimiter::Parenthesis,
                    proc_macro2::Delimiter::Brace => Delimiter::Brace,
                    proc_macro2::Delimiter::Bracket => Delimiter::Bracket,
                    proc_macro2::Delimiter::None => Delimiter::Invisible,
                },
                stream: to_model(g.stream(), next),
                span,
            }),
            proc_macro2::TokenTree::Punct(p) => TokenTree::Punct(Punct {
                ch: p.as_char(),
                spacing: match p.spacing() {
                    proc_macro2::Spacing::Alone => Spacing::Alone,
                    proc_macro2::Spacing::Joint => Spacing::Joint,
                },
                span,
            }),
            proc_macro2::TokenTree::Ident(i) => {
                TokenTree::Ident(Ident { name: i.to_string(), span })
            }
            proc_macro2::TokenTree::Literal(l) => {
                TokenTree::Literal(Literal { text: l.to_string(), span })
            }
        });
    }
    out
}

fn lex(source: &str) -> Vec<TokenTree> {
    let mut next = 0;
    to_model(proc_macro2::TokenStream::from_str(source).unwrap(), &mut next)
}

fn to_stream(tokens: &[TokenTree]) -> proc_macro2::TokenStream {
    let mut out = proc_macro2::TokenStream::new();
    for tree in tokens {
        let tree: proc_macro2::TokenTree = match tree {
            TokenTree::Group(g) => proc_macro2::Group::new(
                match g.delimiter {
                    Delimiter::Parenthesis => proc_macro2::Delimiter::Parenthesis,
                    Delimiter::Brace => proc_macro2::Delimiter::Brace,
                    Delimiter::Bracket => proc_macro2::Delimiter::Bracket,
                    Delimiter::Invisible => proc_macro2::Delimiter::None,
                },
                to_stream(&g.stream),
            )
            .into(),
            TokenTree::Punct(p) => proc_macro2::Punct::new(
                p.ch,
                match p.spacing {
                    Spacing::Alone => proc_macro2::Spacing::Alone,
                    Spacing::Joint => proc_macro2::Spacing::Joint,
                },
            )
            .into(),
            TokenTree::Ident(i) => match i.name.strip_prefix("r#") {
                Some(plain) => {
                    proc_macro2::Ident::new_raw(plain, proc_macro2::Span::call_site()).into()
                }
                None => proc_macro2::Ident::new(&i.name, proc_macro2::Span::call_site()).into(),
            },
            TokenTree::Literal(l) => proc_macro2::Literal::from_str(&l.text).unwrap().into(),
        };
        out.extend(std::iter::once(tree));
    }
    out
}

fn print(tokens: &[TokenTree]) -> String {
    to_stream(tokens).to_string()
}

fn normal(source: &str) -> String {
    proc_macro2::TokenStream::from_str(source).unwrap().to_string()
}

fn expand(input: &Vec<TokenTree>) -> Result<Vec<TokenTree>, StructuralError> {
    macro_engines::seq::seq(input)
}

fn bound(text: &str) -> TokenTree {
    TokenTree::Literal(Literal { text: text.to_string(), span: Span::CallSite })
}

fn index_of_literal(text: &str) -> Option<usize> {
    let mut input = lex("i in");
    input.push(bound(text));
    input.append(&mut lex(".."));
    input.push(bound("18446744073709551615"));
    input.append(&mut lex("{}"));
    match RangeExpansionRequest::parse(&input) {
        Ok(request) => Some(request.start),
        Err(error) => {
            assert_eq!(error.reason, Reason::ExpectedIntegerLiteral);
            assert_eq!(error.position, Span::CallSite);
            None
        }
    }
}

fn error_of(source: &str) -> StructuralError {
    expand(&lex(source)).unwrap_err()
}

#[test]
fn three_ascending_copies_without_braces() {
    let out = expand(&lex("i in 0..3 { f(i); }")).unwrap();
    assert_eq!(print(&out), normal("f(0); f(1); f(2);"));
    assert_eq!(out.len(), 9);
}

#[test]
fn empty_interval_gives_empty_output() {
    let out = expand(&lex("i in 5..5 { f(i); }")).unwrap();
    assert_eq!(out, Vec::<TokenTree>::new());
}

#[test]
fn nested_occurrences_are_replaced_and_nothing_is_evaluated() {
    let out = expand(&lex("i in 0..2 { (a, [i, i+1]) }")).unwrap();
    assert_eq!(print(&out), normal("(a, [0, 0+1]) (a, [1, 1+1])"));
}

#[test]
fn replaced_identifier_keeps_its_position() {
    let input = lex("N in 7..8 { x N [N] }");
    let body = match &input[6] {
        TokenTree::Group(g) => clone_stream(&g.stream),
        _ => unreachable!(),
    };
    let out = expand(&input).unwrap();
    assert_eq!(out.len(), 3);
    assert_eq!(out[0], body[0]);
    assert_eq!(
        out[1],
        TokenTree::Literal(Literal { text: "7".to_string(), span: body[1].span() })
    );
    match (&out[2], &body[2]) {
        (TokenTree::Group(replaced), TokenTree::Group(written)) => {
            assert_eq!(replaced.delimiter, Delimiter::Bracket);
            assert_eq!(replaced.span, written.span);
            assert_eq!(
                replaced.stream,
                vec![TokenTree::Literal(Literal {
                    text: "7".to_string(),
                    span: written.stream[0].span(),
                })]
            );
        }
        _ => panic!("expected a group"),
    }
}

#[test]
fn only_exact_names_are_replaced() {
    let out = expand(&lex("i in 1..2 { i ii _i \"i\" 'i' r#i i2 }")).unwrap();
    assert_eq!(print(&out), normal("1 ii _i \"i\" 'i' r#i i2"));
}

#[test]
fn punctuation_keeps_its_spacing() {
    let out = expand(&lex("k in 3..4 { a::b -> k += k; }")).unwrap();
    assert_eq!(print(&out), normal("a::b -> 3 += 3;"));
}

#[test]
fn indices_are_written_in_decimal() {
    let out = expand(&lex("i in 9..12 { i }")).unwrap();
    assert_eq!(print(&out), normal("9 10 11"));
    let out = expand(&lex("i in 0x10..0b10010 { i }")).unwrap();
    assert_eq!(print(&out), normal("16 17"));
    let out = expand(&lex("i in 1_000usize..1_001u64 { i }")).unwrap();
    assert_eq!(print(&out), normal("1000"));
}

#[test]
fn replace_ident_rewrites_every_depth() {
    let body = lex("x { x ( x ) } y");
    let name = Ident { name: "x".to_string(), span: Span::CallSite };
    let literal = Literal { text: "42".to_string(), span: Span::CallSite };
    let out = replace_ident(&body, &name, &literal);
    assert_eq!(print(&out), normal("42 { 42 ( 42 ) } y"));
    assert_eq!(out[0].span(), body[0].span());
    assert_eq!(out[2], body[2]);
}

#[test]
fn replace_ident_is_the_identity_where_the_name_does_not_occur() {
    let body = lex("a + b(c, [d; 3]) \"e\"");
    let name = Ident { name: "z".to_string(), span: Span::CallSite };
    let literal = Literal { text: "0".to_string(), span: Span::CallSite };
    assert_eq!(replace_ident(&body, &name, &literal), body);
}

#[test]
fn same_input_gives_same_output() {
    let first = expand(&lex("i in 2..6 { a[i] = (i, { i }); }")).unwrap();
    let second = expand(&lex("i in 2..6 { a[i] = (i, { i }); }")).unwrap();
    assert_eq!(first, second);
    assert_eq!(print(&first), print(&second));
}

#[test]
fn request_is_read_from_the_header() {
    let input = lex("n in 2..5 { n }");
    let request = RangeExpansionRequest::parse(&input).unwrap();
    assert_eq!(request.loop_var.name, "n");
    assert_eq!(request.loop_var.span, input[0].span());
    assert_eq!(request.start, 2);
    assert_eq!(request.end, 5);
    assert_eq!(print(&request.body), "n");
    assert_eq!(print(&request.expand()), normal("2 3 4"));
}

#[test]
fn header_errors_name_the_first_misfit() {
    let input = lex("3 in 0..1 {}");
    assert_eq!(
        expand(&input).unwrap_err(),
        StructuralError { reason: Reason::ExpectedIdentifier, position: input[0].span() }
    );
    let input = lex("i of 0..1 {}");
    assert_eq!(
        expand(&input).unwrap_err(),
        StructuralError { reason: Reason::ExpectedIn, position: input[1].span() }
    );
    let input = lex("i in a..1 {}");
    assert_eq!(
        expand(&input).unwrap_err(),
        StructuralError { reason: Reason::ExpectedIntegerLiteral, position: input[2].span() }
    );
    let input = lex("i in 0,1 {}");
    assert_eq!(
        expand(&input).unwrap_err(),
        StructuralError { reason: Reason::ExpectedRange, position: input[3].span() }
    );
    let input = lex("i in 0..\"1\" {}");
    assert_eq!(
        expand(&input).unwrap_err(),
        StructuralError { reason: Reason::ExpectedIntegerLiteral, position: input[5].span() }
    );
    let input = lex("i in 0..1 (x)");
    assert_eq!(
        expand(&input).unwrap_err(),
        StructuralError { reason: Reason::ExpectedBraces, position: input[6].span() }
    );
    let input = lex("i in 0..1 {} ;");
    assert_eq!(
        expand(&input).unwrap_err(),
        StructuralError { reason: Reason::UnexpectedToken, position: input[7].span() }
    );
    let input = lex("i in 4..1 {}");
    assert_eq!(
        expand(&input).unwrap_err(),
        StructuralError { reason: Reason::DescendingRange, position: input[2].span() }
    );
}

#[test]
fn truncated_headers_are_reported_at_the_call_site() {
    assert_eq!(
        error_of(""),
        StructuralError { reason: Reason::ExpectedIdentifier, position: Span::CallSite }
    );
    assert_eq!(
        error_of("i"),
        StructuralError { reason: Reason::ExpectedIn, position: Span::CallSite }
    );
    assert_eq!(
        error_of("i in"),
        StructuralError { reason: Reason::ExpectedIntegerLiteral, position: Span::CallSite }
    );
    assert_eq!(
        error_of("i in 0"),
        StructuralError { reason: Reason::ExpectedRange, position: Span::CallSite }
    );
    assert_eq!(
        error_of("i in 0.."),
        StructuralError { reason: Reason::ExpectedIntegerLiteral, position: Span::CallSite }
    );
    assert_eq!(
        error_of("i in 0..3"),
        StructuralError { reason: Reason::ExpectedBraces, position: Span::CallSite }
    );
}

#[test]
fn keywords_are_no_loop_variables() {
    assert_eq!(error_of("for in 0..1 {}").reason, Reason::ExpectedIdentifier);
    assert_eq!(error_of("self in 0..1 {}").reason, Reason::ExpectedIdentifier);
    assert_eq!(error_of("_ in 0..1 {}").reason, Reason::ExpectedIdentifier);
    assert!(expand(&lex("r#for in 0..1 {}")).is_ok());
}

#[test]
fn separated_dots_are_no_range() {
    let input = lex("i in 0 . . 1 {}");
    assert_eq!(
        expand(&input).unwrap_err(),
        StructuralError { reason: Reason::ExpectedRange, position: input[3].span() }
    );
    let input = lex("i in 0 . 1 {}");
    assert_eq!(expand(&input).unwrap_err().reason, Reason::ExpectedRange);
}

#[test]
fn bounds_must_be_integers_that_fit() {
    assert_eq!(error_of("i in 0..1.5 {}").reason, Reason::ExpectedIntegerLiteral);
    assert_eq!(error_of("i in 0..1e3 {}").reason, Reason::ExpectedIntegerLiteral);
    assert_eq!(error_of("i in 0..'a' {}").reason, Reason::ExpectedIntegerLiteral);
    assert_eq!(
        error_of("i in 0..340282366920938463463374607431768211455 {}").reason,
        Reason::ExpectedIntegerLiteral
    );
    assert_eq!(error_of("i in -1..1 {}").reason, Reason::ExpectedIntegerLiteral);
}

#[test]
fn literal_texts_are_read_as_indices() {
    assert_eq!(index_of_literal("0"), Some(0));
    assert_eq!(index_of_literal("17"), Some(17));
    assert_eq!(index_of_literal("0x1f"), Some(31));
    assert_eq!(index_of_literal("0o17"), Some(15));
    assert_eq!(index_of_literal("1_0u8"), Some(10));
    assert_eq!(index_of_literal("18446744073709551616"), None);
    assert_eq!(
        index_of_literal("18446744073709551615"),
        usize::try_from(u64::MAX).ok()
    );
    assert_eq!(index_of_literal("1.0"), None);
    assert_eq!(index_of_literal(""), None);
    assert_eq!(index_of_literal("x"), None);
    assert_eq!(index_of_literal("\"1\""), None);
}

#[test]
fn values_become_indices_where_they_fit() {
    assert_eq!(index_of_value(None), None);
    assert_eq!(index_of_value(Some(0)), Some(0));
    assert_eq!(index_of_value(Some(4_000_000_000)), usize::try_from(4_000_000_000u64).ok());
    assert_eq!(index_of_value(Some(u64::MAX)), usize::try_from(u64::MAX).ok());
}

#[test]
fn messages_are_fixed_texts() {
    let at = |reason| StructuralError { reason, position: Span::CallSite }.message();
    assert_eq!(at(Reason::ExpectedStruct), "expected struct");
    assert_eq!(at(Reason::ExpectedNamedFields), "expected named fields");
    assert_eq!(at(Reason::MalformedEach), "expected builder(each = \"...\")");
    assert_eq!(at(Reason::ExpectedIdentifier), "expected identifier");
    assert_eq!(at(Reason::ExpectedIn), "expected `in`");
    assert_eq!(at(Reason::ExpectedIntegerLiteral), "expected integer literal");
    assert_eq!(at(Reason::ExpectedRange), "expected `..`");
    assert_eq!(at(Reason::ExpectedBraces), "expected curly braces");
    assert_eq!(at(Reason::UnexpectedToken), "unexpected token");
    assert_eq!(at(Reason::DescendingRange), "range start is greater than range end");
    assert_eq!(
        at(Reason::MisplacedEach),
        "builder(each = \"...\") is only allowed on a Vec field"
    );
}

#[test]
fn copies_equal_what_was_copied() {
    let tokens = lex("a ( b [ c { d } ] ) 1 \"s\" ::");
    assert_eq!(clone_stream(&tokens), tokens);
    assert_eq!(clone_tree(&tokens[1]), tokens[1]);
    assert_eq!(span_at(&tokens, 1), tokens[1].span());
    assert_eq!(span_at(&tokens, 99), Span::CallSite);
    assert!(text_is(&"in".to_string(), "in"));
    assert!(!text_is(&"in".to_string(), "inn"));
}

fn invisible(stream: Vec<TokenTree>) -> TokenTree {
    TokenTree::Group(Group { delimiter: Delimiter::Invisible, stream, span: Span::CallSite })
}

#[test]
fn groups_without_brackets_are_seen_through() {
    let mut plain = lex("a (b) 1");
    let inner = invisible(lex("x y"));
    let outer = invisible(vec![lex("p").remove(0), inner, invisible(Vec::new())]);
    let mut wrapped = lex("(q)");
    wrapped.push(outer);
    wrapped.append(&mut plain);
    let seen = visible_trees(&wrapped);
    assert_eq!(print(&seen), normal("(q) p x y a (b) 1"));
    let bracketed = lex("[u]");
    assert_eq!(visible_trees(&bracketed), bracketed);
    assert_eq!(visible_trees(&Vec::new()), Vec::<TokenTree>::new());
}

#[test]
fn header_is_read_through_groups_without_brackets() {
    let mut input = lex("i in");
    input.push(invisible(lex("1")));
    input.append(&mut lex(".."));
    input.push(invisible(vec![invisible(lex("3"))]));
    input.push(invisible(lex("{ [i] }")));
    input.push(invisible(Vec::new()));
    let out = expand(&input).unwrap();
    assert_eq!(print(&out), normal("[1] [2]"));

    let mut input = lex("i in 0..1");
    input.push(invisible(lex("{ i } ;")));
    assert_eq!(expand(&input).unwrap_err().reason, Reason::UnexpectedToken);
}

#[test]
fn groups_without_brackets_in_the_body_are_kept() {
    let mut input = lex("i in 4..5");
    input.push(TokenTree::Group(Group {
        delimiter: Delimiter::Brace,
        stream: vec![invisible(lex("i + 1"))],
        span: Span::CallSite,
    }));
    let out = expand(&input).unwrap();
    assert_eq!(out.len(), 1);
    match &out[0] {
        TokenTree::Group(g) => {
            assert_eq!(g.delimiter, Delimiter::Invisible);
            assert_eq!(print(&g.stream), normal("4 + 1"));
        }
        _ => panic!("expected the group"),
    }
}

#[test]
fn odd_literal_texts_are_declined_quietly() {
    for text in ["0b", "0x", "1.", "1e+", "0b12", "1.0.0", "0..3", "1 2", "0xg", "1/*", " 1"] {
        assert_eq!(index_of_literal(text), None, "{}", text);
    }
    assert_eq!(index_of_literal("08"), Some(8));
    assert_eq!(index_of_literal("0b_1"), Some(1));
    assert_eq!(index_of_literal("9a"), Some(9));
}

#[test]
fn header_is_read_for_given_answers() {
    let input = lex("n in 2..5 { n }");
    let request = RangeExpansionRequest::header_of(&input, true, Some(2), Some(5)).unwrap();
    assert_eq!(request.loop_var.name, "n");
    assert_eq!((request.start, request.end), (2, 5));
    assert_eq!(print(&request.body), "n");
    let request = RangeExpansionRequest::header_of(&input, true, Some(0), Some(9)).unwrap();
    assert_eq!((request.start, request.end), (0, 9));
    assert_eq!(
        RangeExpansionRequest::header_of(&input, false, Some(2), Some(5)).unwrap_err(),
        StructuralError { reason: Reason::ExpectedIdentifier, position: input[0].span() }
    );
    assert_eq!(
        RangeExpansionRequest::header_of(&input, true, None, Some(5)).unwrap_err(),
        StructuralError { reason: Reason::ExpectedIntegerLiteral, position: input[2].span() }
    );
    assert_eq!(
        RangeExpansionRequest::header_of(&input, true, Some(2), None).unwrap_err(),
        StructuralError { reason: Reason::ExpectedIntegerLiteral, position: input[5].span() }
    );
    assert_eq!(
        RangeExpansionRequest::header_of(&input, true, Some(6), Some(5)).unwrap_err(),
        StructuralError { reason: Reason::DescendingRange, position: input[2].span() }
    );
    assert_eq!(
        RangeExpansionRequest::header_of(&input, true, Some(5), Some(5)).unwrap().expand(),
        Vec::<TokenTree>::new()
    );
}

#[test]
fn answers_do_not_mend_a_wrong_shape() {
    let wrong = |source: &str, reason: Reason| {
        let input = lex(source);
        assert_eq!(
            RangeExpansionRequest::header_of(&input, true, Some(0), Some(1)).unwrap_err().reason,
            reason
        );
    };
    wrong("3 in 0..1 {}", Reason::ExpectedIdentifier);
    wrong("i on 0..1 {}", Reason::ExpectedIn);
    wrong("i in \"0\"..1 {}", Reason::ExpectedIntegerLiteral);
    wrong("i in 0.1 {}", Reason::ExpectedRange);
    wrong("i in 0..x {}", Reason::ExpectedIntegerLiteral);
    wrong("i in 0..1 []", Reason::ExpectedBraces);
    wrong("i in 0..1 {} {}", Reason::UnexpectedToken);
    wrong("", Reason::ExpectedIdentifier);
}

#[test]
fn the_lexer_is_asked_about_the_right_texts() {
    let input = lex("n in 0x2..5u8 { n }");
    assert_eq!(loop_var_text(&input), Some("n"));
    assert_eq!(bound_text(&input, 2), Some("0x2"));
    assert_eq!(bound_text(&input, 5), Some("5u8"));
    assert_eq!(bound_text(&input, 0), None);
    assert_eq!(bound_text(&input, 7), None);
    let input = lex("7 in \"a\"..b { n }");
    assert_eq!(loop_var_text(&input), None);
    assert_eq!(bound_text(&input, 2), None);
    assert_eq!(bound_text(&input, 5), None);
    assert_eq!(loop_var_text(&Vec::new()), None);
    assert!(begins_like_number("0x"));
    assert!(!begins_like_number("x0"));
    assert!(!begins_like_number(""));
    assert!(begins_like_string("\"a"));
    assert!(begins_like_string("r#"));
    assert!(!begins_like_string("b\"a\""));
    assert!(!begins_like_string(""));
}

fn accepted_as_loop_var(word: &str) -> bool {
    let mut input = vec![TokenTree::Ident(Ident { name: word.to_string(), span: Span::CallSite })];
    input.append(&mut lex("in 0..1 {}"));
    match RangeExpansionRequest::parse(&input) {
        Ok(request) => {
            assert_eq!(request.loop_var.name, word);
            true
        }
        Err(error) => {
            assert_eq!(error.reason, Reason::ExpectedIdentifier);
            false
        }
    }
}

#[test]
fn reserved_words_are_refused_and_other_plain_words_accepted() {
    let reserved = [
        "_", "abstract", "as", "become", "box", "break", "const", "continue", "crate", "do",
        "else", "enum", "extern", "false", "final", "fn", "for", "if", "impl", "in", "let",
        "loop", "macro", "match", "mod", "move", "mut", "override", "priv", "pub", "ref",
        "return", "Self", "self", "static", "struct", "super", "trait", "true", "type", "typeof",
        "unsafe", "unsized", "use", "virtual", "where", "while", "yield",
    ];
    for word in reserved {
        assert!(!accepted_as_loop_var(word), "{}", word);
    }
    let plain = [
        "i", "N", "x1", "__", "_a", "a_", "r", "b", "c", "br", "cr", "rb", "async", "await", "dyn",
        "try", "union", "gen", "auto", "default", "raw", "safe", "macro_rules", "abstracts",
        "As", "IN", "selfish", "Selfs", "fnn", "f", "yield_", "arg", "env", "item", "u8", "str",
        "a0123456789", "ABCDEFGHIJKLMNOPQRSTUVWXYZabcdefghijklmnopqrstuvwxyz_0",
    ];
    for word in plain {
        assert!(accepted_as_loop_var(word), "{}", word);
    }
}

#[test]
fn runs_of_digits_have_their_value() {
    assert_eq!(index_of_literal("0"), Some(0));
    assert_eq!(index_of_literal("7"), Some(7));
    assert_eq!(index_of_literal("10"), Some(10));
    assert_eq!(index_of_literal("007"), Some(7));
    assert_eq!(index_of_literal("0000000000000000000000000012"), Some(12));
    assert_eq!(index_of_literal("1234567890"), usize::try_from(1234567890u64).ok());
    assert_eq!(index_of_literal("18446744073709551615"), usize::try_from(u64::MAX).ok());
    assert_eq!(index_of_literal("18446744073709551616"), None);
    assert_eq!(index_of_literal("99999999999999999999999999999999999999999"), None);
}

#[test]
fn texts_with_a_sign_are_no_integers() {
    for text in ["1e+3", "1e-3", "1e+", "1e-", "2E+", "1-", "1+1", "0x1e-3", "1.5e+10f64", "3-"] {
        assert!(holds_a_sign(text), "{}", text);
        assert!(!asks_like_number(text), "{}", text);
        assert_eq!(index_of_literal(text), None, "{}", text);
    }
    for text in ["", "0", "12", "0x1e", "1e3", "a", "_"] {
        assert!(!holds_a_sign(text), "{}", text);
    }
    assert!(asks_like_number("0x1e"));
    assert!(!asks_like_number("x"));
    assert!(!asks_like_number(""));
    assert!(!asks_like_number("-1"));
}
