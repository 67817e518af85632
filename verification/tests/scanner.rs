use framec::scanner::Scanner;
use framec::token::{Token, TokenLiteral, TokenType};

fn scan(source: &str) -> (bool, String, Vec<Token>) {
    Scanner::new(source.to_string())
        .scan_checked()
        .expect("the source scans")
}

fn kinds(tokens: &[Token]) -> Vec<TokenType> {
    tokens.iter().map(|t| t.token_type).collect()
}

fn lexemes(tokens: &[Token]) -> Vec<String> {
    tokens.iter().map(|t| t.lexeme.clone()).collect()
}

#[test]
fn string_test_patterns_are_scanned_in_context() {
    let (ok, diagnostics, tokens) = scan("?~ /a|b/ ::");
    assert!(ok);
    assert_eq!(diagnostics, "");
    assert_eq!(
        kinds(&tokens),
        vec![
            TokenType::StringTest,
            TokenType::ForwardSlash,
            TokenType::MatchString,
            TokenType::Pipe,
            TokenType::MatchString,
            TokenType::ForwardSlash,
            TokenType::TestTerminator,
            TokenType::Eof,
        ]
    );
    assert_eq!(lexemes(&tokens), vec!["?~", "/", "a", "|", "b", "/", "::", ""]);
}

#[test]
fn number_test_patterns_carry_their_numerals() {
    let (ok, _, tokens) = scan("?# /1|2.5|-3/ ::");
    assert!(ok);
    assert_eq!(
        kinds(&tokens),
        vec![
            TokenType::NumberTest,
            TokenType::ForwardSlash,
            TokenType::Number,
            TokenType::Pipe,
            TokenType::Number,
            TokenType::Pipe,
            TokenType::Number,
            TokenType::ForwardSlash,
            TokenType::TestTerminator,
            TokenType::Eof,
        ]
    );
    assert!(matches!(&tokens[4].literal, TokenLiteral::Number(n) if n == "2.5"));
    assert!(matches!(&tokens[6].literal, TokenLiteral::Number(n) if n == "-3"));
}

#[test]
fn malformed_number_pattern_is_a_diagnostic() {
    let (ok, diagnostics, tokens) = scan("?# /x/ ::");
    assert!(!ok);
    assert_eq!(diagnostics, "Line 1 : Error: Malformed number pattern.\n");
    assert_eq!(tokens[2].token_type, TokenType::Error);
}

#[test]
fn slash_outside_a_test_opens_no_pattern() {
    let (ok, _, tokens) = scan("a / b");
    assert!(ok);
    assert_eq!(
        kinds(&tokens),
        vec![
            TokenType::Identifier,
            TokenType::ForwardSlash,
            TokenType::Identifier,
            TokenType::Eof
        ]
    );
}

#[test]
fn operators_are_matched_longest_first() {
    let (ok, _, tokens) = scan("- -> ->> < << <<< $ $$[+] $$[-] ||* || | #![ #[ ## # => == = :> :: :");
    assert!(ok);
    assert_eq!(
        kinds(&tokens),
        vec![
            TokenType::Dash,
            TokenType::Transition,
            TokenType::ChangeState,
            TokenType::LT,
            TokenType::LTx2,
            TokenType::LTx3,
            TokenType::State,
            TokenType::StateStackOperationPush,
            TokenType::StateStackOperationPop,
            TokenType::AnyMessage,
            TokenType::PipePipe,
            TokenType::Pipe,
            TokenType::InnerAttribute,
            TokenType::OuterAttribute,
            TokenType::SystemEnd,
            TokenType::System,
            TokenType::Dispatch,
            TokenType::EqualEqual,
            TokenType::Equals,
            TokenType::ElseContinue,
            TokenType::TestTerminator,
            TokenType::Colon,
            TokenType::Eof,
        ]
    );
}

#[test]
fn block_markers_and_keywords() {
    let (ok, _, tokens) = scan("-interface- -machine- -actions- -domain- -inter var const true false null nil x1");
    assert!(ok);
    assert_eq!(
        kinds(&tokens),
        vec![
            TokenType::InterfaceBlock,
            TokenType::MachineBlock,
            TokenType::ActionsBlock,
            TokenType::DomainBlock,
            TokenType::Dash,
            TokenType::Identifier,
            TokenType::Var,
            TokenType::Const,
            TokenType::True,
            TokenType::False,
            TokenType::Null,
            TokenType::Nil,
            TokenType::Identifier,
            TokenType::Eof,
        ]
    );
    assert_eq!(tokens[0].lexeme, "-interface-");
    assert_eq!(tokens[5].lexeme, "inter");
}

#[test]
fn header_is_one_super_string() {
    let (ok, _, tokens) = scan("  ```\nMIT `x`\n``` #S ##");
    assert!(ok);
    assert_eq!(
        kinds(&tokens),
        vec![
            TokenType::ThreeTicks,
            TokenType::SuperString,
            TokenType::ThreeTicks,
            TokenType::System,
            TokenType::Identifier,
            TokenType::SystemEnd,
            TokenType::Eof,
        ]
    );
    assert_eq!(tokens[1].lexeme, "\nMIT `x`\n");
    assert_eq!(tokens[1].line, 3);
    assert_eq!(tokens[1].start, 5);
    assert_eq!(tokens[1].length, 9);
}

#[test]
fn comments_stay_in_the_token_stream() {
    let (ok, _, tokens) = scan("a --- note\n{-- more\nlines --} b");
    assert!(ok);
    assert_eq!(
        kinds(&tokens),
        vec![
            TokenType::Identifier,
            TokenType::SingleLineComment,
            TokenType::MultiLineComment,
            TokenType::Identifier,
            TokenType::Eof,
        ]
    );
    assert_eq!(tokens[1].lexeme, "--- note");
    assert_eq!(tokens[1].line, 1);
    assert_eq!(tokens[2].lexeme, "{-- more\nlines --}");
    assert_eq!(tokens[2].line, 3);
    assert_eq!(tokens[3].line, 3);
}

#[test]
fn strings_drop_their_quotes_and_keep_escapes() {
    let (ok, _, tokens) = scan("\"a\\\"b\" `c d`");
    assert!(ok);
    assert_eq!(kinds(&tokens), vec![TokenType::String, TokenType::SuperString, TokenType::Eof]);
    assert_eq!(tokens[0].lexeme, "a\\\"b");
    assert_eq!(tokens[0].start, 0);
    assert_eq!(tokens[0].length, 6);
    assert_eq!(tokens[1].lexeme, "c d");
}

#[test]
fn unterminated_string_is_a_diagnostic() {
    let (ok, diagnostics, tokens) = scan("x\n\"abc\n");
    assert!(!ok);
    assert_eq!(diagnostics, "Line 3 : Error: Unterminated string.\n");
    assert_eq!(kinds(&tokens), vec![TokenType::Identifier, TokenType::Eof]);
}

#[test]
fn unterminated_super_string_names_its_first_line() {
    let (ok, diagnostics, _) = scan("x\n`abc\n\n");
    assert!(!ok);
    assert_eq!(diagnostics, "Line 2 : Error: Unterminated super string.\n");
}

#[test]
fn unterminated_comment_is_a_diagnostic() {
    let (ok, diagnostics, _) = scan("{-- abc");
    assert!(!ok);
    assert_eq!(diagnostics, "Line 1 : Error: Unterminated comment.\n");
}

#[test]
fn unexpected_character_is_reported_and_scanning_continues() {
    let (ok, diagnostics, tokens) = scan("a\n\n% b \u{e9}");
    assert!(!ok);
    assert_eq!(
        diagnostics,
        "Line 3 : Error: Found unexpected character '%'.\nLine 3 : Error: Found unexpected character '\u{e9}'.\n"
    );
    assert_eq!(
        kinds(&tokens),
        vec![
            TokenType::Identifier,
            TokenType::Error,
            TokenType::Identifier,
            TokenType::Error,
            TokenType::Eof
        ]
    );
}

#[test]
fn incomplete_stack_operator_is_reported() {
    let (ok, diagnostics, tokens) = scan("$$[x $$[+x");
    assert!(!ok);
    assert_eq!(
        diagnostics,
        "Line 1 : Error: Unexpected character.\nLine 1 : Error: Unexpected character.\n"
    );
    assert_eq!(
        kinds(&tokens),
        vec![TokenType::Identifier, TokenType::Identifier, TokenType::Eof]
    );
}

#[test]
fn dangling_comment_opening_is_fatal() {
    assert!(Scanner::new("a {- b".to_string()).scan_checked().is_none());
    assert!(Scanner::new("\"{-\" {-- {- --}".to_string()).scan_checked().is_some());
}

#[test]
fn numbers_take_one_fraction() {
    let (ok, _, tokens) = scan("12 3.5 -7 1.2.3 4.");
    assert!(ok);
    assert_eq!(
        lexemes(&tokens),
        vec!["12", "3.5", "-7", "1.2", ".", "3", "4", ".", ""]
    );
    assert!(matches!(&tokens[1].literal, TokenLiteral::Number(n) if n == "3.5"));
    assert!(matches!(&tokens[4].literal, TokenLiteral::Absent));
}

#[test]
fn lexemes_of_simple_text_give_the_text_back() {
    let source = "foo ( bar1 ) [ 12.5 ] * + ^ @ ; . }\n\tbaz_2";
    let (ok, _, tokens) = scan(source);
    assert!(ok);
    let joined: String = tokens.iter().map(|t| t.lexeme.as_str()).collect();
    let stripped: String = source.chars().filter(|c| !c.is_whitespace()).collect();
    assert_eq!(joined, stripped);
}

#[test]
fn token_new_keeps_its_fields() {
    let t = Token::new(TokenType::Identifier, "x".to_string(), TokenLiteral::Absent, 3, 7, 1);
    assert_eq!(t.token_type, TokenType::Identifier);
    assert_eq!(t.lexeme, "x");
    assert_eq!((t.line, t.start, t.length), (3, 7, 1));
    let copy = t.duplicate();
    assert_eq!(copy.lexeme, "x");
    assert_eq!(copy.start, 7);
}

#[test]
fn malformed_header_gives_up_the_source() {
    let (ok, diagnostics, tokens) = scan("\n`` x");
    assert!(!ok);
    assert_eq!(diagnostics, "Line 2 : Error: Malformed header token.\n");
    assert_eq!(kinds(&tokens), vec![TokenType::Eof]);
}

#[test]
fn unterminated_header_is_a_diagnostic() {
    let (ok, diagnostics, tokens) = scan("```\nlicense\n``");
    assert!(!ok);
    assert_eq!(diagnostics, "Line 3 : Error: Unterminated header.\n");
    assert_eq!(kinds(&tokens), vec![TokenType::ThreeTicks, TokenType::Eof]);
    assert_eq!(tokens[0].lexeme, "`");
    assert_eq!(tokens[0].length, 3);
}

#[test]
fn unterminated_pattern_is_a_diagnostic() {
    let (ok, diagnostics, tokens) = scan("?~ /a|b\n");
    assert!(!ok);
    assert_eq!(diagnostics, "Line 2 : Error: Unterminated match pattern.\n");
    assert_eq!(
        kinds(&tokens),
        vec![
            TokenType::StringTest,
            TokenType::ForwardSlash,
            TokenType::MatchString,
            TokenType::Pipe,
            TokenType::Eof
        ]
    );
}

#[test]
fn tests_nest_and_close_innermost_first() {
    let (ok, _, tokens) = scan("?~ /a/ ? x / y :: /b/ :: c / d");
    assert!(ok);
    assert_eq!(
        kinds(&tokens),
        vec![
            TokenType::StringTest,
            TokenType::ForwardSlash,
            TokenType::MatchString,
            TokenType::ForwardSlash,
            TokenType::BoolTestTrue,
            TokenType::Identifier,
            TokenType::ForwardSlash,
            TokenType::Identifier,
            TokenType::TestTerminator,
            TokenType::ForwardSlash,
            TokenType::MatchString,
            TokenType::ForwardSlash,
            TokenType::TestTerminator,
            TokenType::Identifier,
            TokenType::ForwardSlash,
            TokenType::Identifier,
            TokenType::Eof,
        ]
    );
    assert_eq!(tokens[10].lexeme, "b");
}

#[test]
fn tokens_lie_in_the_source_one_behind_the_other() {
    let source = "#M -machine- $S |e| \"s\" -> $T ^ --- c\n{-- d --} ?# /1|2/ x :: ##";
    let (ok, _, tokens) = scan(source);
    assert!(ok);
    let chars: Vec<char> = source.chars().collect();
    let mut end = 0;
    for t in &tokens {
        assert!(t.start >= end);
        end = t.start + t.length;
        assert!(end <= chars.len());
        let covered: String = chars[t.start..end].iter().collect();
        if t.token_type == TokenType::String {
            assert_eq!(covered, format!("\"{}\"", t.lexeme));
        } else {
            assert_eq!(covered, t.lexeme);
        }
    }
}

#[test]
fn scan_tokens_gives_success_diagnostics_and_tokens() {
    let (ok, diagnostics, tokens) = Scanner::new("#M ##".to_string()).scan_tokens();
    assert!(ok);
    assert_eq!(diagnostics, "");
    assert_eq!(
        kinds(&tokens),
        vec![TokenType::System, TokenType::Identifier, TokenType::SystemEnd, TokenType::Eof]
    );
    assert_eq!(tokens[3].start, 5);
    assert_eq!(tokens[3].length, 0);
    assert_eq!(tokens[3].line, 1);
}
