//! The scanner: from source text to tokens and diagnostics.

use crate::lexicon::{
    CharClass, Lexing, digit_at, has_at, has_word, in_class, line_at, number_end, numeral_span,
    quote_end, run_end, scan, scan_ampersand, scan_brace, scan_colon, scan_comment, scan_dash,
    scan_dollar, scan_equals, scan_greater, scan_hash, scan_header, scan_less, scan_patterns,
    scan_pipe, scan_question, scan_rest, scan_slash, scan_string, scan_super_string, scan_token,
    scan_word, triple_at, triple_start,
};
use crate::text::{alpha, alpha_numeric, append_decimal, blank, chars_of, digit, string_of};
use crate::token::{MatchType, Token, TokenLiteral, TokenType, token_views};
use crate::scanner_laws::lemma_run_bounds;
use vstd::prelude::*;


verus! {

/// A scan in progress over one source.
pub struct Scanner {
    source: Vec<char>,
    tokens: Vec<Token>,
    current: usize,
    pub has_errors: bool,
    pub errors: std::string::String,
    test_t_stack: Vec<MatchType>,
    line: usize,
    fatal: bool,
}

/// The line of an offset is at most one more than the offset.
proof fn lemma_line_bound(src: Seq<char>, pos: int)
    ensures
        line_at(src, pos) <= if pos <= 0 {
            1
        } else {
            pos + 1
        },
    decreases pos,
{
    if pos > 0 {
        lemma_line_bound(src, pos - 1);
    }
}

fn class_has(class: &CharClass, c: char) -> (b: bool)
    ensures
        b == in_class(*class, c),
{
    match class {
        CharClass::Blank => blank(c),
        CharClass::Digit => digit(c),
        CharClass::Word => alpha_numeric(c),
        CharClass::Line => c != '\n',
    }
}

impl Scanner {
    /// The characters being scanned.
    pub closed spec fn text(&self) -> Seq<char> {
        self.source@
    }

    /// What the scan has produced so far.
    pub closed spec fn progress(&self) -> Lexing {
        Lexing {
            pos: self.current as int,
            tokens: token_views(self.tokens@),
            diagnostics: self.errors@,
            failed: self.has_errors,
            tests: self.test_t_stack@,
            fatal: self.fatal,
        }
    }

    /// The scanner stands inside its source and knows its line.
    pub closed spec fn wf(&self) -> bool {
        &&& self.current <= self.source@.len()
        &&& self.line == line_at(self.source@, self.current as int)
    }

    /// This scanner took one step from `pre` and now stands at `after`.
    spec fn stepped(&self, pre: &Scanner, after: Lexing) -> bool {
        &&& self.wf()
        &&& self.source == pre.source
        &&& self.progress() == after
        &&& self.current > pre.current
    }

    /// A scanner at the start of `source`.
    pub fn new(source: std::string::String) -> (scanner: Scanner)
        ensures
            scanner.text() == source@,
            scanner.progress() == Lexing::start(),
            scanner.wf(),
    {
        let scanner = Scanner {
            source: chars_of(source.as_str()),
            tokens: Vec::new(),
            current: 0,
            has_errors: false,
            errors: std::string::String::new(),
            test_t_stack: Vec::new(),
            line: 1,
            fatal: false,
        };
        assert(token_views(scanner.tokens@) =~= Seq::empty());
        scanner
    }

    fn peek_is(&self, k: usize, c: char) -> (b: bool)
        requires
            self.current <= self.source@.len(),
        ensures
            b == has_at(self.source@, self.current + k, c),
    {
        k < self.source.len() - self.current && self.source[self.current + k] == c
    }

    fn peek_digit(&self, k: usize) -> (b: bool)
        requires
            self.current <= self.source@.len(),
        ensures
            b == digit_at(self.source@, self.current + k),
    {
        k < self.source.len() - self.current && digit(self.source[self.current + k])
    }

    fn peek_triple(&self, from: usize, a: char, b: char, c: char) -> (found: bool)
        requires
            from <= self.source@.len(),
        ensures
            found == triple_at(self.source@, from as int, a, b, c),
    {
        2 < self.source.len() - from && self.source[from] == a && self.source[from + 1] == b
            && self.source[from + 2] == c
    }

    /// Whether `word` stands `k` characters after the current one.
    fn looking_at(&self, k: usize, word: &str) -> (b: bool)
        requires
            self.current <= self.source@.len(),
        ensures
            b == has_word(self.source@, self.current + k, word@),
    {
        let n = word.unicode_len();
        let rest = self.source.len() - self.current;
        if k > rest || n > rest - k {
            return false;
        }
        let at = self.current + k;
        let mut i: usize = 0;
        while i < n
            invariant
                at == self.current + k,
                at + n <= self.source@.len() <= usize::MAX,
                n == word@.len(),
                i <= n,
                forall|j: int| 0 <= j < i ==> self.source@[at + j] == word@[j],
            decreases n - i,
        {
            if self.source[at + i] != word.get_char(i) {
                assert(self.source@.subrange(at as int, at + n)[i as int] != word@[i as int]);
                return false;
            }
            i += 1;
        }
        assert(self.source@.subrange(at as int, at + n) =~= word@);
        true
    }

    fn find_run_end(&self, from: usize, class: CharClass) -> (end: usize)
        requires
            from <= self.source@.len(),
        ensures
            end == run_end(self.source@, from as int, class),
            from <= end <= self.source@.len(),
    {
        let mut i: usize = from;
        while i < self.source.len() && class_has(&class, self.source[i])
            invariant
                from <= i <= self.source@.len(),
                run_end(self.source@, from as int, class) == run_end(self.source@, i as int, class),
            decreases self.source@.len() - i,
        {
            i += 1;
        }
        i
    }

    fn find_number_end(&self, from: usize) -> (end: usize)
        requires
            from <= self.source@.len(),
        ensures
            end == number_end(self.source@, from as int),
            from <= end <= self.source@.len(),
    {
        let whole = self.find_run_end(from, CharClass::Digit);
        if whole < self.source.len() && self.source[whole] == '.' && 1 < self.source.len() - whole
            && digit(self.source[whole + 1]) {
            self.find_run_end(whole + 1, CharClass::Digit)
        } else {
            whole
        }
    }

    fn find_quote_end(&self, from: usize, quote: char) -> (end: usize)
        requires
            from <= self.source@.len(),
        ensures
            end == quote_end(self.source@, from as int, quote),
            from <= end <= self.source@.len(),
    {
        let n = self.source.len();
        let mut i: usize = from;
        while i < n
            invariant
                n == self.source@.len(),
                from <= i <= n,
                quote_end(self.source@, from as int, quote) == quote_end(
                    self.source@,
                    i as int,
                    quote,
                ),
            decreases n - i,
        {
            let c = self.source[i];
            if c == '\\' {
                if 1 >= n - i {
                    return n;
                }
                i += 2;
            } else if c == quote {
                return i;
            } else {
                i += 1;
            }
        }
        n
    }

    fn find_triple_start(&self, from: usize, a: char, b: char, c: char) -> (end: usize)
        requires
            from <= self.source@.len(),
        ensures
            end == triple_start(self.source@, from as int, a, b, c),
            from <= end <= self.source@.len(),
            end < self.source@.len() ==> triple_at(self.source@, end as int, a, b, c),
    {
        let n = self.source.len();
        let mut i: usize = from;
        while i < n
            invariant
                n == self.source@.len(),
                from <= i <= n,
                triple_start(self.source@, from as int, a, b, c) == triple_start(
                    self.source@,
                    i as int,
                    a,
                    b,
                    c,
                ),
            decreases n - i,
        {
            if self.peek_triple(i, a, b, c) {
                return i;
            }
            i += 1;
        }
        n
    }

    /// Moves to offset `end`, counting the lines passed.
    fn advance_to(&mut self, end: usize)
        requires
            old(self).wf(),
            old(self).current <= end <= old(self).source@.len(),
            old(self).source@.len() < usize::MAX,
        ensures
            final(self).wf(),
            final(self).source == old(self).source,
            final(self).current == end,
            final(self).progress() == old(self).progress().at(end as int),
    {
        while self.current < end
            invariant
                self.wf(),
                self.current <= end <= self.source@.len(),
                self.source@.len() < usize::MAX,
                self.source == old(self).source,
                self.progress() == old(self).progress().at(self.current as int),
            decreases end - self.current,
        {
            proof {
                lemma_line_bound(self.source@, self.current as int);
            }
            if self.source[self.current] == '\n' {
                self.line += 1;
            }
            self.current += 1;
        }
    }

    /// Adds the token that runs from the current offset to `end` and whose
    /// lexeme is `source[from..to]`.
    fn add_lexed(&mut self, kind: TokenType, end: usize, from: usize, to: usize, numeric: bool)
        requires
            old(self).wf(),
            old(self).current <= end <= old(self).source@.len(),
            from <= to <= old(self).source@.len(),
            old(self).source@.len() < usize::MAX,
        ensures
            final(self).wf(),
            final(self).source == old(self).source,
            final(self).progress() == old(self).progress().lexed(
                old(self).source@,
                kind,
                old(self).current as int,
                end as int,
                from as int,
                to as int,
                numeric,
            ),
    {
        let start = self.current;
        self.advance_to(end);
        let lexeme = string_of(&self.source, from, to);
        let literal = if numeric {
            TokenLiteral::Number(string_of(&self.source, from, to))
        } else {
            TokenLiteral::Absent
        };
        let token = Token::new(kind, lexeme, literal, self.line, start, end - start);
        let ghost before = self.tokens@;
        self.tokens.push(token);
        assert(token_views(self.tokens@) =~= token_views(before).push(token@));
    }

    /// Adds the token of the next `n` characters.
    fn add_token(&mut self, kind: TokenType, n: usize)
        requires
            old(self).wf(),
            old(self).current + n <= old(self).source@.len(),
            old(self).source@.len() < usize::MAX,
        ensures
            final(self).wf(),
            final(self).source == old(self).source,
            final(self).progress() == old(self).progress().token(
                old(self).source@,
                kind,
                old(self).current as int,
                old(self).current + n,
            ),
            final(self).current == old(self).current + n,
    {
        let start = self.current;
        self.add_lexed(kind, start + n, start, start + n, false);
    }

    /// Adds the token that runs to `end`, delimiters included, with what
    /// stands between them as its lexeme.
    fn add_quoted(&mut self, kind: TokenType, end: usize)
        requires
            old(self).wf(),
            old(self).current + 2 <= end <= old(self).source@.len(),
            old(self).source@.len() < usize::MAX,
        ensures
            final(self).wf(),
            final(self).source == old(self).source,
            final(self).progress() == old(self).progress().quoted(
                old(self).source@,
                kind,
                old(self).current as int,
                end as int,
            ),
            final(self).current == end,
    {
        let start = self.current;
        self.add_lexed(kind, end, start + 1, end - 1, false);
    }

    /// Adds the number that runs to `end`.
    fn add_number(&mut self, end: usize)
        requires
            old(self).wf(),
            old(self).current <= end <= old(self).source@.len(),
            old(self).source@.len() < usize::MAX,
        ensures
            final(self).wf(),
            final(self).source == old(self).source,
            final(self).progress() == old(self).progress().number(
                old(self).source@,
                old(self).current as int,
                end as int,
            ),
            final(self).current == end,
    {
        let start = self.current;
        self.add_lexed(TokenType::Number, end, start, end, true);
    }

    /// Records a diagnostic.
    fn error(&mut self, line: usize, message: &str)
        ensures
            final(self).wf() == old(self).wf(),
            final(self).source == old(self).source,
            final(self).current == old(self).current,
            final(self).progress() == old(self).progress().report(line as nat, message@),
    {
        let mut text = std::string::String::from_str("Line ");
        append_decimal(&mut text, line);
        text.append(" : Error: ");
        text.append(message);
        text.append("\n");
        self.has_errors = true;
        self.errors.append(text.as_str());
    }

    /// Records a diagnostic for the last line and gives up the rest of the
    /// source.
    fn abandon(&mut self, message: &str)
        requires
            old(self).wf(),
            old(self).current < old(self).source@.len(),
            old(self).source@.len() < usize::MAX,
        ensures
            final(self).stepped(
                old(self),
                old(self).progress().report(
                    line_at(old(self).source@, old(self).source@.len() as int),
                    message@,
                ).at(old(self).source@.len() as int),
            ),
    {
        let n = self.source.len();
        self.advance_to(n);
        let line = self.line;
        self.error(line, message);
    }

    /// The scanner stands before a character that it can read.
    spec fn ready(&self) -> bool {
        &&& self.wf()
        &&& self.current < self.source@.len()
        &&& self.source@.len() < usize::MAX
    }

    fn scan_pipe(&mut self)
        requires
            old(self).ready(),
        ensures
            final(self).stepped(old(self), scan_pipe(old(self).source@, old(self).progress())),
    {
        if self.peek_is(1, '|') {
            if self.peek_is(2, '*') {
                self.add_token(TokenType::AnyMessage, 3);
            } else if self.peek_is(2, '.') {
                self.add_token(TokenType::PipePipeDot, 3);
            } else if self.peek_is(2, '[') {
                self.add_token(TokenType::PipePipeLBracket, 3);
            } else {
                self.add_token(TokenType::PipePipe, 2);
            }
        } else {
            self.add_token(TokenType::Pipe, 1);
        }
    }

    fn scan_dollar(&mut self)
        requires
            old(self).ready(),
        ensures
            final(self).stepped(old(self), scan_dollar(old(self).source@, old(self).progress())),
    {
        if self.peek_is(1, '$') {
            if self.peek_is(2, '[') {
                let push = self.peek_is(3, '+');
                if push || self.peek_is(3, '-') {
                    if self.peek_is(4, ']') {
                        if push {
                            self.add_token(TokenType::StateStackOperationPush, 5);
                        } else {
                            self.add_token(TokenType::StateStackOperationPop, 5);
                        }
                    } else {
                        let line = self.line;
                        let at = self.current + 4;
                        self.error(line, "Unexpected character.");
                        self.advance_to(at);
                    }
                } else {
                    let line = self.line;
                    let at = self.current + 3;
                    self.error(line, "Unexpected character.");
                    self.advance_to(at);
                }
            } else {
                self.add_token(TokenType::State, 2);
            }
        } else {
            self.add_token(TokenType::State, 1);
        }
    }

    fn scan_greater(&mut self)
        requires
            old(self).ready(),
        ensures
            final(self).stepped(old(self), scan_greater(old(self).source@, old(self).progress())),
    {
        if self.peek_is(1, '>') {
            if self.peek_is(2, '>') {
                self.add_token(TokenType::GTx3, 3);
            } else {
                self.add_token(TokenType::GTx2, 2);
            }
        } else if self.peek_is(1, '=') {
            self.add_token(TokenType::GreaterEqual, 2);
        } else {
            self.add_token(TokenType::GT, 1);
        }
    }

    fn scan_less(&mut self)
        requires
            old(self).ready(),
        ensures
            final(self).stepped(old(self), scan_less(old(self).source@, old(self).progress())),
    {
        if self.peek_is(1, '<') {
            if self.peek_is(2, '<') {
                self.add_token(TokenType::LTx3, 3);
            } else {
                self.add_token(TokenType::LTx2, 2);
            }
        } else if self.peek_is(1, '=') {
            self.add_token(TokenType::LessEqual, 2);
        } else {
            self.add_token(TokenType::LT, 1);
        }
    }

    fn scan_ampersand(&mut self)
        requires
            old(self).ready(),
        ensures
            final(self).stepped(
                old(self),
                scan_ampersand(old(self).source@, old(self).progress()),
            ),
    {
        if self.peek_is(1, '&') {
            self.add_token(TokenType::LogicalAnd, 2);
        } else if self.peek_is(1, '|') {
            self.add_token(TokenType::LogicalXor, 2);
        } else {
            self.add_token(TokenType::And, 1);
        }
    }

    fn scan_question(&mut self)
        requires
            old(self).ready(),
        ensures
            final(self).stepped(old(self), scan_question(old(self).source@, old(self).progress())),
    {
        if self.peek_is(1, '!') {
            self.add_token(TokenType::BoolTestFalse, 2);
            self.test_t_stack.push(MatchType::Bool);
        } else if self.peek_is(1, '~') {
            self.add_token(TokenType::StringTest, 2);
            self.test_t_stack.push(MatchType::String);
        } else if self.peek_is(1, '#') {
            self.add_token(TokenType::NumberTest, 2);
            self.test_t_stack.push(MatchType::Number);
        } else {
            self.add_token(TokenType::BoolTestTrue, 1);
            self.test_t_stack.push(MatchType::Bool);
        }
    }

    /// Adds the block marker `-word` if it stands here.
    fn block_keyword(&mut self, word: &str, kind: TokenType) -> (found: bool)
        requires
            old(self).ready(),
        ensures
            found == has_word(old(self).source@, old(self).current + 1, word@),
            found ==> final(self).stepped(
                old(self),
                old(self).progress().token(
                    old(self).source@,
                    kind,
                    old(self).current as int,
                    old(self).current + 1 + word@.len(),
                ),
            ),
            !found ==> *final(self) == *old(self),
    {
        if self.looking_at(1, word) {
            let n = word.unicode_len();
            self.add_token(kind, 1 + n);
            true
        } else {
            false
        }
    }

    fn scan_dash(&mut self)
        requires
            old(self).ready(),
        ensures
            final(self).stepped(old(self), scan_dash(old(self).source@, old(self).progress())),
    {
        if self.block_keyword("interface-", TokenType::InterfaceBlock) {
        } else if self.block_keyword("machine-", TokenType::MachineBlock) {
        } else if self.block_keyword("actions-", TokenType::ActionsBlock) {
        } else if self.block_keyword("domain-", TokenType::DomainBlock) {
        } else if self.peek_is(1, '>') {
            if self.peek_is(2, '>') {
                self.add_token(TokenType::ChangeState, 3);
            } else {
                self.add_token(TokenType::Transition, 2);
            }
        } else if self.peek_is(1, '-') {
            if self.peek_is(2, '-') {
                self.single_line_comment();
            } else {
                self.add_token(TokenType::DashDash, 2);
            }
        } else if self.peek_digit(1) {
            self.number(1);
        } else {
            self.add_token(TokenType::Dash, 1);
        }
    }

    /// A number whose digits start `sign` characters from here.
    fn number(&mut self, sign: usize)
        requires
            old(self).ready(),
            sign <= 1,
            digit_at(old(self).source@, old(self).current + sign),
        ensures
            final(self).stepped(
                old(self),
                old(self).progress().number(
                    old(self).source@,
                    old(self).current as int,
                    number_end(old(self).source@, old(self).current + sign),
                ),
            ),
    {
        let end = self.find_number_end(self.current + sign);
        proof {
            let digits = self.current + sign;
            let whole = run_end(self.source@, digits, CharClass::Digit);
            lemma_run_bounds(self.source@, digits, CharClass::Digit);
            if whole < self.source@.len() {
                lemma_run_bounds(self.source@, whole + 1, CharClass::Digit);
            }
        }
        self.add_number(end);
    }

    /// A comment from `---` to the end of the line.
    fn single_line_comment(&mut self)
        requires
            old(self).ready(),
            old(self).current + 3 <= old(self).source@.len(),
        ensures
            final(self).stepped(
                old(self),
                old(self).progress().token(
                    old(self).source@,
                    TokenType::SingleLineComment,
                    old(self).current as int,
                    run_end(old(self).source@, old(self).current + 3, CharClass::Line),
                ),
            ),
    {
        let end = self.find_run_end(self.current + 3, CharClass::Line);
        let n = end - self.current;
        self.add_token(TokenType::SingleLineComment, n);
    }

    /// A comment from `{--` to the next `--}`.
    fn multi_line_comment(&mut self)
        requires
            old(self).ready(),
            old(self).current + 3 <= old(self).source@.len(),
        ensures
            final(self).stepped(old(self), scan_comment(old(self).source@, old(self).progress())),
    {
        let close = self.find_triple_start(self.current + 3, '-', '-', '}');
        if close >= self.source.len() {
            self.abandon("Unterminated comment.");
        } else {
            let n = close + 3 - self.current;
            self.add_token(TokenType::MultiLineComment, n);
        }
    }

    fn scan_brace(&mut self)
        requires
            old(self).ready(),
        ensures
            final(self).stepped(old(self), scan_brace(old(self).source@, old(self).progress())),
    {
        if self.peek_is(1, '-') {
            if self.peek_is(2, '-') {
                self.multi_line_comment();
            } else {
                let at = self.current + 2;
                self.advance_to(at);
                self.fatal = true;
            }
        } else {
            self.add_token(TokenType::OpenBrace, 1);
        }
    }

    fn scan_colon(&mut self)
        requires
            old(self).ready(),
        ensures
            final(self).stepped(old(self), scan_colon(old(self).source@, old(self).progress())),
    {
        if self.peek_is(1, ':') {
            self.add_token(TokenType::TestTerminator, 2);
            let _ = self.test_t_stack.pop();
        } else if self.peek_is(1, '>') {
            self.add_token(TokenType::ElseContinue, 2);
        } else {
            self.add_token(TokenType::Colon, 1);
        }
    }

    fn scan_hash(&mut self)
        requires
            old(self).ready(),
        ensures
            final(self).stepped(old(self), scan_hash(old(self).source@, old(self).progress())),
    {
        if self.peek_is(1, '#') {
            self.add_token(TokenType::SystemEnd, 2);
        } else if self.peek_is(1, '[') {
            self.add_token(TokenType::OuterAttribute, 2);
        } else if self.peek_is(1, '!') {
            if self.peek_is(2, '[') {
                self.add_token(TokenType::InnerAttribute, 3);
            } else {
                self.add_token(TokenType::Error, 2);
            }
        } else {
            self.add_token(TokenType::System, 1);
        }
    }

    fn scan_equals(&mut self)
        requires
            old(self).ready(),
        ensures
            final(self).stepped(old(self), scan_equals(old(self).source@, old(self).progress())),
    {
        if self.peek_is(1, '>') {
            self.add_token(TokenType::Dispatch, 2);
        } else if self.peek_is(1, '=') {
            self.add_token(TokenType::EqualEqual, 2);
        } else {
            self.add_token(TokenType::Equals, 1);
        }
    }

    /// Whether the text from here to `end` is a numeral.
    fn numeral_to(&self, end: usize) -> (b: bool)
        requires
            self.current <= end <= self.source@.len(),
        ensures
            b == numeral_span(self.source@, self.current as int, end as int),
    {
        let _ = self.source.len();
        let digits = if self.peek_is(0, '-') {
            self.current + 1
        } else {
            self.current
        };
        digits < end && digit(self.source[digits]) && self.find_number_end(digits) == end
    }

    /// One alternative of a pattern, from here to `end`.
    fn add_pattern(&mut self, numeric: bool, end: usize)
        requires
            old(self).wf(),
            old(self).current <= end <= old(self).source@.len(),
            old(self).source@.len() < usize::MAX,
        ensures
            final(self).wf(),
            final(self).source == old(self).source,
            final(self).current == end,
            final(self).progress() == old(self).progress().pattern(
                old(self).source@,
                numeric,
                old(self).current as int,
                end as int,
            ),
    {
        let n = end - self.current;
        if !numeric {
            self.add_token(TokenType::MatchString, n);
        } else if self.numeral_to(end) {
            self.add_number(end);
        } else {
            self.add_token(TokenType::Error, n);
            let line = self.line;
            self.error(line, "Malformed number pattern.");
        }
    }

    /// The alternatives of a pattern, up to and with the `/` that closes it.
    fn scan_match(&mut self, numeric: bool)
        requires
            old(self).wf(),
            old(self).current <= old(self).source@.len(),
            old(self).source@.len() < usize::MAX,
        ensures
            final(self).wf(),
            final(self).source == old(self).source,
            final(self).current >= old(self).current,
            final(self).progress() == scan_patterns(
                old(self).source@,
                old(self).progress(),
                numeric,
                old(self).current as int,
                old(self).current as int,
            ),
    {
        let n = self.source.len();
        let mut i: usize = self.current;
        while i < n
            invariant
                self.wf(),
                self.source == old(self).source,
                n == self.source@.len(),
                n < usize::MAX,
                old(self).current <= self.current <= i <= n,
                scan_patterns(
                    old(self).source@,
                    old(self).progress(),
                    numeric,
                    old(self).current as int,
                    old(self).current as int,
                ) == scan_patterns(
                    self.source@,
                    self.progress(),
                    numeric,
                    self.current as int,
                    i as int,
                ),
            decreases n - i,
        {
            let c = self.source[i];
            if c == '|' {
                self.add_pattern(numeric, i);
                self.add_token(TokenType::Pipe, 1);
                i = self.current;
            } else if c == '/' {
                self.add_pattern(numeric, i);
                self.add_token(TokenType::ForwardSlash, 1);
                return;
            } else {
                i += 1;
            }
        }
        self.advance_to(n);
        let line = self.line;
        self.error(line, "Unterminated match pattern.");
    }

    fn scan_slash(&mut self)
        requires
            old(self).ready(),
        ensures
            final(self).stepped(old(self), scan_slash(old(self).source@, old(self).progress())),
    {
        if self.peek_is(1, '/') {
            if self.peek_is(2, '!') {
                self.add_token(TokenType::MatchNullString, 3);
            } else {
                self.add_token(TokenType::MatchEmptyString, 2);
            }
        } else {
            self.add_token(TokenType::ForwardSlash, 1);
            let depth = self.test_t_stack.len();
            if depth > 0 {
                match self.test_t_stack[depth - 1] {
                    MatchType::String => self.scan_match(false),
                    MatchType::Number => self.scan_match(true),
                    MatchType::Bool => {},
                }
            }
        }
    }

    fn string(&mut self)
        requires
            old(self).ready(),
        ensures
            final(self).stepped(old(self), scan_string(old(self).source@, old(self).progress())),
    {
        let close = self.find_quote_end(self.current + 1, '"');
        if close >= self.source.len() {
            self.abandon("Unterminated string.");
        } else {
            self.add_quoted(TokenType::String, close + 1);
        }
    }

    fn super_string(&mut self)
        requires
            old(self).ready(),
        ensures
            final(self).stepped(
                old(self),
                scan_super_string(old(self).source@, old(self).progress()),
            ),
    {
        let close = self.find_quote_end(self.current + 1, '`');
        if close >= self.source.len() {
            let line = self.line;
            let n = self.source.len();
            self.error(line, "Unterminated super string.");
            self.advance_to(n);
        } else {
            self.add_quoted(TokenType::SuperString, close + 1);
        }
    }

    /// Whether the text from here to `end` is `word`.
    fn word_is(&self, end: usize, word: &str) -> (b: bool)
        requires
            self.current <= end <= self.source@.len(),
        ensures
            b == (self.source@.subrange(self.current as int, end as int) == word@),
    {
        let n = word.unicode_len();
        n == end - self.current && self.looking_at(0, word)
    }

    fn identifier(&mut self)
        requires
            old(self).ready(),
            crate::text::is_alpha(old(self).source@[old(self).current as int]),
        ensures
            final(self).stepped(old(self), scan_word(old(self).source@, old(self).progress())),
    {
        let end = self.find_run_end(self.current, CharClass::Word);
        proof {
            lemma_run_bounds(self.source@, self.current as int, CharClass::Word);
        }
        let kind = if self.word_is(end, "null") {
            TokenType::Null
        } else if self.word_is(end, "nil") {
            TokenType::Nil
        } else if self.word_is(end, "true") {
            TokenType::True
        } else if self.word_is(end, "false") {
            TokenType::False
        } else if self.word_is(end, "var") {
            TokenType::Var
        } else if self.word_is(end, "const") {
            TokenType::Const
        } else {
            TokenType::Identifier
        };
        let n = end - self.current;
        self.add_token(kind, n);
    }

    /// Reads the token, blank or malformed text that begins here.
    fn scan_token(&mut self)
        requires
            old(self).ready(),
        ensures
            final(self).stepped(old(self), scan_token(old(self).source@, old(self).progress())),
    {
        let c: char = self.source[self.current];
        if c == '(' {
            self.add_token(TokenType::LParen, 1);
        } else if c == ')' {
            self.add_token(TokenType::RParen, 1);
        } else if c == '[' {
            self.add_token(TokenType::LBracket, 1);
        } else if c == ']' {
            self.add_token(TokenType::RBracket, 1);
        } else if c == '|' {
            self.scan_pipe();
        } else if c == '*' {
            self.add_token(TokenType::Star, 1);
        } else if c == '+' {
            self.add_token(TokenType::Plus, 1);
        } else if c == '!' {
            if self.peek_is(1, '=') {
                self.add_token(TokenType::BangEqual, 2);
            } else {
                self.add_token(TokenType::Bang, 1);
            }
        } else if c == '$' {
            self.scan_dollar();
        } else if c == '^' {
            self.add_token(TokenType::Caret, 1);
        } else if c == '>' {
            self.scan_greater();
        } else if c == '<' {
            self.scan_less();
        } else if c == '&' {
            self.scan_ampersand();
        } else if c == '?' {
            self.scan_question();
        } else if c == '@' {
            self.add_token(TokenType::At, 1);
        } else if blank(c) {
            let at = self.current + 1;
            self.advance_to(at);
        } else if c == '-' {
            self.scan_dash();
        } else if c == '{' {
            self.scan_brace();
        } else if c == '}' {
            self.add_token(TokenType::CloseBrace, 1);
        } else if c == ':' {
            self.scan_colon();
        } else if c == ';' {
            self.add_token(TokenType::Semicolon, 1);
        } else if c == '"' {
            self.string();
        } else if c == '`' {
            self.super_string();
        } else if c == '#' {
            self.scan_hash();
        } else if c == '=' {
            self.scan_equals();
        } else if c == '/' {
            self.scan_slash();
        } else if c == '.' {
            self.add_token(TokenType::Dot, 1);
        } else if digit(c) {
            self.number(0);
        } else if alpha(c) {
            self.identifier();
        } else {
            let mut message = std::string::String::from_str("Found unexpected character '");
            message.push(c);
            message.append("'.");
            let line = self.line;
            self.error(line, message.as_str());
            self.add_token(TokenType::Error, 1);
        }
    }

    /// Reads the header, if the source begins with one.
    fn scan_header(&mut self)
        requires
            old(self).wf(),
            old(self).progress() == Lexing::start(),
            old(self).source@.len() < usize::MAX,
        ensures
            final(self).wf(),
            final(self).source == old(self).source,
            final(self).progress() == scan_header(old(self).source@),
    {
        let n = self.source.len();
        let p = self.find_run_end(0, CharClass::Blank);
        self.advance_to(p);
        if !self.peek_is(0, '`') {
        } else if !self.peek_triple(p, '`', '`', '`') {
            let line = self.line;
            self.error(line, "Malformed header token.");
            self.advance_to(n);
        } else {
            self.add_quoted(TokenType::ThreeTicks, p + 3);
            let close = self.find_triple_start(p + 3, '`', '`', '`');
            if close >= n {
                self.advance_to(n);
                let line = self.line;
                self.error(line, "Unterminated header.");
            } else {
                self.add_token(TokenType::SuperString, close - (p + 3));
                self.add_quoted(TokenType::ThreeTicks, close + 3);
            }
        }
    }

    /// Scans the whole source.
    fn run(self) -> (out: (bool, bool, std::string::String, Vec<Token>))
        requires
            self.wf(),
            self.progress() == Lexing::start(),
            self.text().len() < usize::MAX,
        ensures
            out.0 == scan(self.text()).fatal,
            out.1 == !scan(self.text()).failed,
            out.2@ == scan(self.text()).diagnostics,
            token_views(out.3@) == scan(self.text()).tokens,
    {
        let ghost src = self.source@;
        let mut scanner = self;
        scanner.scan_header();
        while scanner.current < scanner.source.len() && !scanner.fatal
            invariant
                scanner.wf(),
                scanner.source@ == src,
                src.len() < usize::MAX,
                scan_rest(src, scanner.progress()) == scan_rest(src, scan_header(src)),
            decreases src.len() - scanner.current,
        {
            scanner.scan_token();
        }
        if !scanner.fatal {
            let n = scanner.source.len();
            scanner.advance_to(n);
            scanner.add_token(TokenType::Eof, 0);
        }
        (scanner.fatal, !scanner.has_errors, scanner.errors, scanner.tokens)
    }

    /// The outcome of scanning the source: whether it scanned without a
    /// diagnostic, the diagnostics, and the tokens in order.
    pub fn scan_tokens(self) -> (out: (bool, std::string::String, Vec<Token>))
        requires
            self.wf(),
            self.progress() == Lexing::start(),
            self.text().len() < usize::MAX,
            !scan(self.text()).fatal,
        ensures
            out.0 == !scan(self.text()).failed,
            out.1@ == scan(self.text()).diagnostics,
            token_views(out.2@) == scan(self.text()).tokens,
    {
        let (_, success, diagnostics, tokens) = self.run();
        (success, diagnostics, tokens)
    }

    /// As [`Scanner::scan_tokens`], for any source: `None` when the source
    /// holds a `{-` that opens no comment, or is too long to count its
    /// lines.
    pub fn scan_checked(self) -> (out: Option<(bool, std::string::String, Vec<Token>)>)
        requires
            self.wf(),
            self.progress() == Lexing::start(),
        ensures
            out is None <==> (self.text().len() >= usize::MAX || scan(self.text()).fatal),
            out matches Some(found) ==> {
                &&& found.0 == !scan(self.text()).failed
                &&& found.1@ == scan(self.text()).diagnostics
                &&& token_views(found.2@) == scan(self.text()).tokens
            },
    {
        if self.source.len() == usize::MAX {
            return None;
        }
        let (fatal, success, diagnostics, tokens) = self.run();
        if fatal {
            None
        } else {
            Some((success, diagnostics, tokens))
        }
    }
}

} // verus!
