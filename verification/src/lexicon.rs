//! The lexical grammar of Frame, stated over the characters of a source.
//!
//! Every function here is a specification: it says which tokens and
//! diagnostics a source denotes. The scanner is proved to compute exactly
//! this.

use crate::text::{decimal, is_alpha, is_alpha_numeric, is_blank, is_digit};
use crate::token::{MatchType, TokenType, TokenView};
use vstd::prelude::*;

verus! {

/// Whether the source holds `c` at offset `i`.
pub open spec fn has_at(src: Seq<char>, i: int, c: char) -> bool {
    0 <= i < src.len() && src[i] == c
}

/// Whether the source holds a decimal digit at offset `i`.
pub open spec fn digit_at(src: Seq<char>, i: int) -> bool {
    0 <= i < src.len() && is_digit(src[i])
}

/// Whether the three characters from offset `i` on are `a`, `b`, `c`.
pub open spec fn triple_at(src: Seq<char>, i: int, a: char, b: char, c: char) -> bool {
    has_at(src, i, a) && has_at(src, i + 1, b) && has_at(src, i + 2, c)
}

/// Whether `word` stands in the source at offset `at`.
pub open spec fn has_word(src: Seq<char>, at: int, word: Seq<char>) -> bool {
    0 <= at && at + word.len() <= src.len() && src.subrange(at, at + word.len()) == word
}

/// The line of offset `pos`: one more than the line feeds before it.
pub open spec fn line_at(src: Seq<char>, pos: int) -> nat
    decreases pos,
{
    if pos <= 0 {
        1
    } else if has_at(src, pos - 1, '\n') {
        line_at(src, pos - 1) + 1
    } else {
        line_at(src, pos - 1)
    }
}

/// Classes of characters that tokens are runs of.
pub enum CharClass {
    Blank,
    Digit,
    Word,
    /// Anything but a line feed.
    Line,
}

pub open spec fn in_class(class: CharClass, c: char) -> bool {
    match class {
        CharClass::Blank => is_blank(c),
        CharClass::Digit => is_digit(c),
        CharClass::Word => is_alpha_numeric(c),
        CharClass::Line => c != '\n',
    }
}

/// The end of the longest run of `class` characters that starts at `from`.
pub open spec fn run_end(src: Seq<char>, from: int, class: CharClass) -> int
    decreases src.len() - from,
{
    if 0 <= from < src.len() && in_class(class, src[from]) {
        run_end(src, from + 1, class)
    } else {
        from
    }
}

/// The end of a numeral whose digits start at `from`: digits, then at most
/// one fractional part, which is a point followed by at least one digit.
pub open spec fn number_end(src: Seq<char>, from: int) -> int {
    let whole = run_end(src, from, CharClass::Digit);
    if has_at(src, whole, '.') && digit_at(src, whole + 1) {
        run_end(src, whole + 1, CharClass::Digit)
    } else {
        whole
    }
}

/// Whether `src[start..end]` is a numeral: an optional minus sign, digits
/// and at most one fractional part.
pub open spec fn numeral_span(src: Seq<char>, start: int, end: int) -> bool {
    let digits = if has_at(src, start, '-') {
        start + 1
    } else {
        start
    };
    digits < end && digit_at(src, digits) && number_end(src, digits) == end
}

/// The offset of the first unescaped `quote` at or after `from`, or the
/// length of the source when there is none. A backslash escapes the
/// character after it.
pub open spec fn quote_end(src: Seq<char>, from: int, quote: char) -> int
    decreases src.len() - from,
{
    if from < 0 || from >= src.len() {
        src.len() as int
    } else if src[from] == '\\' {
        if from + 1 >= src.len() {
            src.len() as int
        } else {
            quote_end(src, from + 2, quote)
        }
    } else if src[from] == quote {
        from
    } else {
        quote_end(src, from + 1, quote)
    }
}

/// The offset of the first `a b c` at or after `from`, or the length of the
/// source when there is none.
pub open spec fn triple_start(src: Seq<char>, from: int, a: char, b: char, c: char) -> int
    decreases src.len() - from,
{
    if from < 0 || from >= src.len() {
        src.len() as int
    } else if triple_at(src, from, a, b, c) {
        from
    } else {
        triple_start(src, from + 1, a, b, c)
    }
}

/// The kind of the word `text`: a keyword's, or that of an identifier.
pub open spec fn word_kind(text: Seq<char>) -> TokenType {
    if text == "null"@ {
        TokenType::Null
    } else if text == "nil"@ {
        TokenType::Nil
    } else if text == "true"@ {
        TokenType::True
    } else if text == "false"@ {
        TokenType::False
    } else if text == "var"@ {
        TokenType::Var
    } else if text == "const"@ {
        TokenType::Const
    } else {
        TokenType::Identifier
    }
}

/// One line of the diagnostics.
pub open spec fn diagnostic(line: nat, message: Seq<char>) -> Seq<char> {
    "Line "@ + decimal(line) + " : Error: "@ + message + "\n"@
}

/// What is said of a character that starts no token.
pub open spec fn unexpected_character(c: char) -> Seq<char> {
    "Found unexpected character '"@.push(c) + "'."@
}

/// The state of a scan: what has been produced up to an offset.
pub ghost struct Lexing {
    /// Offset of the next character to read.
    pub pos: int,
    pub tokens: Seq<TokenView>,
    /// The diagnostics so far, one line each.
    pub diagnostics: Seq<char>,
    /// Whether a diagnostic was recorded.
    pub failed: bool,
    /// The tests that are open, innermost last.
    pub tests: Seq<MatchType>,
    /// Whether the scan met a shape it cannot recover from.
    pub fatal: bool,
}

impl Lexing {
    /// The state before anything is read.
    pub open spec fn start() -> Lexing {
        Lexing {
            pos: 0,
            tokens: Seq::empty(),
            diagnostics: Seq::empty(),
            failed: false,
            tests: Seq::empty(),
            fatal: false,
        }
    }

    /// This state, moved to offset `pos`.
    pub open spec fn at(self, pos: int) -> Lexing {
        Lexing { pos, ..self }
    }

    /// This state after the token `src[start..end]`, whose lexeme is
    /// `src[from..to]`.
    pub open spec fn lexed(
        self,
        src: Seq<char>,
        kind: TokenType,
        start: int,
        end: int,
        from: int,
        to: int,
        numeric: bool,
    ) -> Lexing {
        Lexing {
            pos: end,
            tokens: self.tokens.push(
                TokenView {
                    kind,
                    lexeme: src.subrange(from, to),
                    literal: if numeric {
                        Some(src.subrange(from, to))
                    } else {
                        None
                    },
                    line: line_at(src, end),
                    start: start as nat,
                    length: (end - start) as nat,
                },
            ),
            ..self
        }
    }

    /// After a token that covers `src[start..end]` and has it as lexeme.
    pub open spec fn token(self, src: Seq<char>, kind: TokenType, start: int, end: int) -> Lexing {
        self.lexed(src, kind, start, end, start, end, false)
    }

    /// After a token that covers `src[start..end]`, delimiters included,
    /// and whose lexeme is what stands between them.
    pub open spec fn quoted(self, src: Seq<char>, kind: TokenType, start: int, end: int) -> Lexing {
        self.lexed(src, kind, start, end, start + 1, end - 1, false)
    }

    /// After the number `src[start..end]`.
    pub open spec fn number(self, src: Seq<char>, start: int, end: int) -> Lexing {
        self.lexed(src, TokenType::Number, start, end, start, end, true)
    }

    /// After recording `message` for `line`.
    pub open spec fn report(self, line: nat, message: Seq<char>) -> Lexing {
        Lexing {
            diagnostics: self.diagnostics + diagnostic(line, message),
            failed: true,
            ..self
        }
    }

    /// After opening a test of the given kind.
    pub open spec fn enter_test(self, kind: MatchType) -> Lexing {
        Lexing { tests: self.tests.push(kind), ..self }
    }

    /// After closing the innermost test, if one is open.
    pub open spec fn leave_test(self) -> Lexing {
        if self.tests.len() > 0 {
            Lexing { tests: self.tests.drop_last(), ..self }
        } else {
            self
        }
    }

    /// After one alternative of a pattern, `src[start..end]`.
    pub open spec fn pattern(self, src: Seq<char>, numeric: bool, start: int, end: int) -> Lexing {
        if !numeric {
            self.token(src, TokenType::MatchString, start, end)
        } else if numeral_span(src, start, end) {
            self.number(src, start, end)
        } else {
            self.token(src, TokenType::Error, start, end).report(
                line_at(src, end),
                "Malformed number pattern."@,
            )
        }
    }
}

/// The alternatives of a pattern, up to and with the `/` that closes it.
/// The alternative being read started at `start`; `i` is the next offset
/// to look at.
pub open spec fn scan_patterns(
    src: Seq<char>,
    st: Lexing,
    numeric: bool,
    start: int,
    i: int,
) -> Lexing
    decreases src.len() - i,
{
    if i < 0 || i >= src.len() {
        st.report(line_at(src, src.len() as int), "Unterminated match pattern."@).at(
            src.len() as int,
        )
    } else if src[i] == '|' {
        scan_patterns(
            src,
            st.pattern(src, numeric, start, i).token(src, TokenType::Pipe, i, i + 1),
            numeric,
            i + 1,
            i + 1,
        )
    } else if src[i] == '/' {
        st.pattern(src, numeric, start, i).token(src, TokenType::ForwardSlash, i, i + 1)
    } else {
        scan_patterns(src, st, numeric, start, i + 1)
    }
}

/// `|`, `||`, `||*`, `||.`, `||[`.
pub open spec fn scan_pipe(src: Seq<char>, st: Lexing) -> Lexing {
    let p = st.pos;
    if has_at(src, p + 1, '|') {
        if has_at(src, p + 2, '*') {
            st.token(src, TokenType::AnyMessage, p, p + 3)
        } else if has_at(src, p + 2, '.') {
            st.token(src, TokenType::PipePipeDot, p, p + 3)
        } else if has_at(src, p + 2, '[') {
            st.token(src, TokenType::PipePipeLBracket, p, p + 3)
        } else {
            st.token(src, TokenType::PipePipe, p, p + 2)
        }
    } else {
        st.token(src, TokenType::Pipe, p, p + 1)
    }
}

/// `$`, `$$`, `$$[+]`, `$$[-]`. A state-stack operator that is begun and
/// not completed is reported, and the scan goes on behind what was read
/// of it.
pub open spec fn scan_dollar(src: Seq<char>, st: Lexing) -> Lexing {
    let p = st.pos;
    if has_at(src, p + 1, '$') {
        if has_at(src, p + 2, '[') {
            if has_at(src, p + 3, '+') || has_at(src, p + 3, '-') {
                if has_at(src, p + 4, ']') {
                    st.token(
                        src,
                        if has_at(src, p + 3, '+') {
                            TokenType::StateStackOperationPush
                        } else {
                            TokenType::StateStackOperationPop
                        },
                        p,
                        p + 5,
                    )
                } else {
                    st.report(line_at(src, p), "Unexpected character."@).at(p + 4)
                }
            } else {
                st.report(line_at(src, p), "Unexpected character."@).at(p + 3)
            }
        } else {
            st.token(src, TokenType::State, p, p + 2)
        }
    } else {
        st.token(src, TokenType::State, p, p + 1)
    }
}

/// `>`, `>>`, `>>>`, `>=`.
pub open spec fn scan_greater(src: Seq<char>, st: Lexing) -> Lexing {
    let p = st.pos;
    if has_at(src, p + 1, '>') {
        if has_at(src, p + 2, '>') {
            st.token(src, TokenType::GTx3, p, p + 3)
        } else {
            st.token(src, TokenType::GTx2, p, p + 2)
        }
    } else if has_at(src, p + 1, '=') {
        st.token(src, TokenType::GreaterEqual, p, p + 2)
    } else {
        st.token(src, TokenType::GT, p, p + 1)
    }
}

/// `<`, `<<`, `<<<`, `<=`.
pub open spec fn scan_less(src: Seq<char>, st: Lexing) -> Lexing {
    let p = st.pos;
    if has_at(src, p + 1, '<') {
        if has_at(src, p + 2, '<') {
            st.token(src, TokenType::LTx3, p, p + 3)
        } else {
            st.token(src, TokenType::LTx2, p, p + 2)
        }
    } else if has_at(src, p + 1, '=') {
        st.token(src, TokenType::LessEqual, p, p + 2)
    } else {
        st.token(src, TokenType::LT, p, p + 1)
    }
}

/// `?`, `?!`, `?~`, `?#`: each opens a test.
pub open spec fn scan_question(src: Seq<char>, st: Lexing) -> Lexing {
    let p = st.pos;
    if has_at(src, p + 1, '!') {
        st.token(src, TokenType::BoolTestFalse, p, p + 2).enter_test(MatchType::Bool)
    } else if has_at(src, p + 1, '~') {
        st.token(src, TokenType::StringTest, p, p + 2).enter_test(MatchType::String)
    } else if has_at(src, p + 1, '#') {
        st.token(src, TokenType::NumberTest, p, p + 2).enter_test(MatchType::Number)
    } else {
        st.token(src, TokenType::BoolTestTrue, p, p + 1).enter_test(MatchType::Bool)
    }
}

/// What a `-` begins: a block marker, `->`, `->>`, `--`, a comment to the
/// end of the line, a negative number, or the `-` alone.
pub open spec fn scan_dash(src: Seq<char>, st: Lexing) -> Lexing {
    let p = st.pos;
    if has_word(src, p + 1, "interface-"@) {
        st.token(src, TokenType::InterfaceBlock, p, p + 1 + "interface-"@.len())
    } else if has_word(src, p + 1, "machine-"@) {
        st.token(src, TokenType::MachineBlock, p, p + 1 + "machine-"@.len())
    } else if has_word(src, p + 1, "actions-"@) {
        st.token(src, TokenType::ActionsBlock, p, p + 1 + "actions-"@.len())
    } else if has_word(src, p + 1, "domain-"@) {
        st.token(src, TokenType::DomainBlock, p, p + 1 + "domain-"@.len())
    } else if has_at(src, p + 1, '>') {
        if has_at(src, p + 2, '>') {
            st.token(src, TokenType::ChangeState, p, p + 3)
        } else {
            st.token(src, TokenType::Transition, p, p + 2)
        }
    } else if has_at(src, p + 1, '-') {
        if has_at(src, p + 2, '-') {
            st.token(src, TokenType::SingleLineComment, p, run_end(src, p + 3, CharClass::Line))
        } else {
            st.token(src, TokenType::DashDash, p, p + 2)
        }
    } else if digit_at(src, p + 1) {
        st.number(src, p, number_end(src, p + 1))
    } else {
        st.token(src, TokenType::Dash, p, p + 1)
    }
}

/// A comment from the `{--` at `st.pos` to the next `--}`. Without one the
/// rest of the source is given up, with a diagnostic for the last line.
pub open spec fn scan_comment(src: Seq<char>, st: Lexing) -> Lexing {
    let close = triple_start(src, st.pos + 3, '-', '-', '}');
    if close >= src.len() {
        st.report(line_at(src, src.len() as int), "Unterminated comment."@).at(src.len() as int)
    } else {
        st.token(src, TokenType::MultiLineComment, st.pos, close + 3)
    }
}

/// `{`, or a comment that `{--` opens. A `{-` that no second `-` follows is
/// the one shape the scan does not recover from.
pub open spec fn scan_brace(src: Seq<char>, st: Lexing) -> Lexing {
    let p = st.pos;
    if has_at(src, p + 1, '-') {
        if has_at(src, p + 2, '-') {
            scan_comment(src, st)
        } else {
            Lexing { fatal: true, ..st.at(p + 2) }
        }
    } else {
        st.token(src, TokenType::OpenBrace, p, p + 1)
    }
}

/// `:`, `:>`, and `::`, which closes the innermost test.
pub open spec fn scan_colon(src: Seq<char>, st: Lexing) -> Lexing {
    let p = st.pos;
    if has_at(src, p + 1, ':') {
        st.token(src, TokenType::TestTerminator, p, p + 2).leave_test()
    } else if has_at(src, p + 1, '>') {
        st.token(src, TokenType::ElseContinue, p, p + 2)
    } else {
        st.token(src, TokenType::Colon, p, p + 1)
    }
}

/// `#`, `##`, `#[`, `#![`; `#!` alone is an error token.
pub open spec fn scan_hash(src: Seq<char>, st: Lexing) -> Lexing {
    let p = st.pos;
    if has_at(src, p + 1, '#') {
        st.token(src, TokenType::SystemEnd, p, p + 2)
    } else if has_at(src, p + 1, '[') {
        st.token(src, TokenType::OuterAttribute, p, p + 2)
    } else if has_at(src, p + 1, '!') {
        if has_at(src, p + 2, '[') {
            st.token(src, TokenType::InnerAttribute, p, p + 3)
        } else {
            st.token(src, TokenType::Error, p, p + 2)
        }
    } else {
        st.token(src, TokenType::System, p, p + 1)
    }
}

/// `=`, `==`, `=>`.
pub open spec fn scan_equals(src: Seq<char>, st: Lexing) -> Lexing {
    let p = st.pos;
    if has_at(src, p + 1, '>') {
        st.token(src, TokenType::Dispatch, p, p + 2)
    } else if has_at(src, p + 1, '=') {
        st.token(src, TokenType::EqualEqual, p, p + 2)
    } else {
        st.token(src, TokenType::Equals, p, p + 1)
    }
}

/// `&`, `&&`, `&|`.
pub open spec fn scan_ampersand(src: Seq<char>, st: Lexing) -> Lexing {
    let p = st.pos;
    if has_at(src, p + 1, '&') {
        st.token(src, TokenType::LogicalAnd, p, p + 2)
    } else if has_at(src, p + 1, '|') {
        st.token(src, TokenType::LogicalXor, p, p + 2)
    } else {
        st.token(src, TokenType::And, p, p + 1)
    }
}

/// `//`, `//!`, or a `/`. Inside a string or number test the `/` opens a
/// pattern, which is read to the `/` that closes it.
pub open spec fn scan_slash(src: Seq<char>, st: Lexing) -> Lexing {
    let p = st.pos;
    if has_at(src, p + 1, '/') {
        if has_at(src, p + 2, '!') {
            st.token(src, TokenType::MatchNullString, p, p + 3)
        } else {
            st.token(src, TokenType::MatchEmptyString, p, p + 2)
        }
    } else {
        let open = st.token(src, TokenType::ForwardSlash, p, p + 1);
        if st.tests.len() > 0 && st.tests.last() == MatchType::String {
            scan_patterns(src, open, false, p + 1, p + 1)
        } else if st.tests.len() > 0 && st.tests.last() == MatchType::Number {
            scan_patterns(src, open, true, p + 1, p + 1)
        } else {
            open
        }
    }
}

/// A string between double quotes. Without the closing quote the rest of
/// the source is given up, with a diagnostic for the last line.
pub open spec fn scan_string(src: Seq<char>, st: Lexing) -> Lexing {
    let p = st.pos;
    let close = quote_end(src, p + 1, '"');
    if close >= src.len() {
        st.report(line_at(src, src.len() as int), "Unterminated string."@).at(src.len() as int)
    } else {
        st.quoted(src, TokenType::String, p, close + 1)
    }
}

/// A string between backticks. Without the closing backtick the rest of
/// the source is given up, with a diagnostic for the line it began on.
pub open spec fn scan_super_string(src: Seq<char>, st: Lexing) -> Lexing {
    let p = st.pos;
    let close = quote_end(src, p + 1, '`');
    if close >= src.len() {
        st.report(line_at(src, p), "Unterminated super string."@).at(src.len() as int)
    } else {
        st.quoted(src, TokenType::SuperString, p, close + 1)
    }
}

/// An identifier or a keyword.
pub open spec fn scan_word(src: Seq<char>, st: Lexing) -> Lexing {
    let end = run_end(src, st.pos, CharClass::Word);
    st.token(src, word_kind(src.subrange(st.pos, end)), st.pos, end)
}

/// The state after the token, blank or diagnostic that begins at `st.pos`.
pub open spec fn scan_token(src: Seq<char>, st: Lexing) -> Lexing
    recommends
        0 <= st.pos < src.len(),
{
    let p = st.pos;
    let c = src[p];
    if c == '(' {
        st.token(src, TokenType::LParen, p, p + 1)
    } else if c == ')' {
        st.token(src, TokenType::RParen, p, p + 1)
    } else if c == '[' {
        st.token(src, TokenType::LBracket, p, p + 1)
    } else if c == ']' {
        st.token(src, TokenType::RBracket, p, p + 1)
    } else if c == '|' {
        scan_pipe(src, st)
    } else if c == '*' {
        st.token(src, TokenType::Star, p, p + 1)
    } else if c == '+' {
        st.token(src, TokenType::Plus, p, p + 1)
    } else if c == '!' {
        if has_at(src, p + 1, '=') {
            st.token(src, TokenType::BangEqual, p, p + 2)
        } else {
            st.token(src, TokenType::Bang, p, p + 1)
        }
    } else if c == '$' {
        scan_dollar(src, st)
    } else if c == '^' {
        st.token(src, TokenType::Caret, p, p + 1)
    } else if c == '>' {
        scan_greater(src, st)
    } else if c == '<' {
        scan_less(src, st)
    } else if c == '&' {
        scan_ampersand(src, st)
    } else if c == '?' {
        scan_question(src, st)
    } else if c == '@' {
        st.token(src, TokenType::At, p, p + 1)
    } else if is_blank(c) {
        st.at(p + 1)
    } else if c == '-' {
        scan_dash(src, st)
    } else if c == '{' {
        scan_brace(src, st)
    } else if c == '}' {
        st.token(src, TokenType::CloseBrace, p, p + 1)
    } else if c == ':' {
        scan_colon(src, st)
    } else if c == ';' {
        st.token(src, TokenType::Semicolon, p, p + 1)
    } else if c == '"' {
        scan_string(src, st)
    } else if c == '`' {
        scan_super_string(src, st)
    } else if c == '#' {
        scan_hash(src, st)
    } else if c == '=' {
        scan_equals(src, st)
    } else if c == '/' {
        scan_slash(src, st)
    } else if c == '.' {
        st.token(src, TokenType::Dot, p, p + 1)
    } else if is_digit(c) {
        st.number(src, p, number_end(src, p))
    } else if is_alpha(c) {
        scan_word(src, st)
    } else {
        st.report(line_at(src, p), unexpected_character(c)).token(src, TokenType::Error, p, p + 1)
    }
}

/// The header: blanks, then, if a backtick follows, three backticks, the
/// text up to the next three backticks as one super string, and those
/// three. The lexeme of three backticks is the one between the other two.
/// A header that is begun and not closed gives up the source.
pub open spec fn scan_header(src: Seq<char>) -> Lexing {
    let st = Lexing::start();
    let p = run_end(src, 0, CharClass::Blank);
    if !has_at(src, p, '`') {
        st.at(p)
    } else if !triple_at(src, p, '`', '`', '`') {
        st.report(line_at(src, p), "Malformed header token."@).at(src.len() as int)
    } else {
        let open = st.quoted(src, TokenType::ThreeTicks, p, p + 3);
        let close = triple_start(src, p + 3, '`', '`', '`');
        if close >= src.len() {
            open.report(line_at(src, src.len() as int), "Unterminated header."@).at(
                src.len() as int,
            )
        } else {
            open.token(src, TokenType::SuperString, p + 3, close).quoted(
                src,
                TokenType::ThreeTicks,
                close,
                close + 3,
            )
        }
    }
}

/// The state after everything from `st.pos` on is scanned, or after the
/// scan met a fatal shape.
pub open spec fn scan_rest(src: Seq<char>, st: Lexing) -> Lexing
    decreases src.len() - st.pos,
{
    if st.fatal || st.pos < 0 || st.pos >= src.len() {
        st
    } else {
        let next = scan_token(src, st);
        if st.pos < next.pos <= src.len() {
            scan_rest(src, next)
        } else {
            next
        }
    }
}

/// What the whole source denotes: the header, the tokens of the body and,
/// unless the scan was fatal, the end-of-input token.
pub open spec fn scan(src: Seq<char>) -> Lexing {
    let body = scan_rest(src, scan_header(src));
    if body.fatal {
        body
    } else {
        body.token(src, TokenType::Eof, src.len() as int, src.len() as int)
    }
}

} // verus!
