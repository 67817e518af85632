//! What holds of every scan.

use crate::lexicon::{
    CharClass, Lexing, in_class, line_at, number_end, quote_end, run_end, scan, scan_ampersand,
    scan_brace, scan_colon, scan_dash, scan_dollar, scan_equals, scan_greater, scan_hash,
    scan_header, scan_less, scan_patterns, scan_pipe, scan_question, scan_rest, scan_slash,
    scan_string, scan_super_string, scan_token, scan_word, triple_at, triple_start,
    unexpected_character,
};
use crate::text::{is_alpha, is_alpha_numeric, is_blank, is_digit};
use crate::token::{TokenType, TokenView};
use vstd::prelude::*;

verus! {

/// The characters that are a token on their own wherever they stand.
pub open spec fn is_single(c: char) -> bool {
    c == '(' || c == ')' || c == '[' || c == ']' || c == '*' || c == '+' || c == '^' || c == '@'
        || c == ';' || c == '.' || c == '}'
}

/// A source of blanks, words, numbers and operators of one character: it
/// opens no block, test, comment or string.
pub open spec fn is_simple(src: Seq<char>) -> bool {
    forall|i: int| 0 <= i < src.len() ==> is_blank(src[i]) || is_alpha_numeric(src[i]) || is_single(
        #[trigger] src[i],
    )
}

/// The first `n` characters of the source without the blanks.
pub open spec fn without_blanks(src: Seq<char>, n: nat) -> Seq<char>
    decreases n,
{
    if n == 0 || n > src.len() {
        Seq::empty()
    } else if is_blank(src[n - 1]) {
        without_blanks(src, (n - 1) as nat)
    } else {
        without_blanks(src, (n - 1) as nat).push(src[n - 1])
    }
}

/// The lexemes of the first `n` tokens, one behind the other.
pub open spec fn lexemes(tokens: Seq<TokenView>, n: nat) -> Seq<char>
    decreases n,
{
    if n == 0 || n > tokens.len() {
        Seq::empty()
    } else {
        lexemes(tokens, (n - 1) as nat) + tokens[n - 1].lexeme
    }
}

/// Every character of a run is of the run's class.
pub proof fn lemma_run(src: Seq<char>, from: int, class: CharClass, j: int)
    requires
        0 <= from <= j < run_end(src, from, class),
        from <= src.len(),
    ensures
        j < src.len(),
        in_class(class, src[j]),
    decreases src.len() - from,
{
    if from < src.len() && in_class(class, src[from]) {
        if j > from {
            lemma_run(src, from + 1, class, j);
        }
    }
}

/// A run ends at or behind its start, inside the source.
pub proof fn lemma_run_bounds(src: Seq<char>, from: int, class: CharClass)
    requires
        0 <= from <= src.len(),
    ensures
        from <= run_end(src, from, class) <= src.len(),
        from < src.len() && in_class(class, src[from]) ==> from < run_end(src, from, class),
    decreases src.len() - from,
{
    if from < src.len() && in_class(class, src[from]) {
        lemma_run_bounds(src, from + 1, class);
    }
}

/// A stretch without blanks is kept whole.
proof fn lemma_keep(src: Seq<char>, p: int, e: int)
    requires
        0 <= p <= e <= src.len(),
        forall|j: int| p <= j < e ==> !is_blank(src[j]),
    ensures
        without_blanks(src, e as nat) == without_blanks(src, p as nat) + src.subrange(p, e),
    decreases e - p,
{
    if e == p {
        assert(src.subrange(p, e) =~= Seq::empty());
        assert(without_blanks(src, p as nat) + Seq::<char>::empty() =~= without_blanks(
            src,
            p as nat,
        ));
    } else {
        lemma_keep(src, p, e - 1);
        assert(src.subrange(p, e) =~= src.subrange(p, e - 1).push(src[e - 1]));
        assert((without_blanks(src, p as nat) + src.subrange(p, e - 1)).push(src[e - 1])
            =~= without_blanks(src, p as nat) + src.subrange(p, e));
    }
}

/// A stretch of blanks is dropped whole.
proof fn lemma_drop(src: Seq<char>, p: int, e: int)
    requires
        0 <= p <= e <= src.len(),
        forall|j: int| p <= j < e ==> is_blank(src[j]),
    ensures
        without_blanks(src, e as nat) == without_blanks(src, p as nat),
    decreases e - p,
{
    if e > p {
        lemma_drop(src, p, e - 1);
    }
}

/// The digits and the point of a number are no blanks.
proof fn lemma_number(src: Seq<char>, from: int)
    requires
        0 <= from < src.len(),
        is_digit(src[from]),
    ensures
        from < number_end(src, from) <= src.len(),
        forall|j: int| from <= j < number_end(src, from) ==> !is_blank(src[j]),
{
    let whole = run_end(src, from, CharClass::Digit);
    lemma_run_bounds(src, from, CharClass::Digit);
    assert forall|j: int| from <= j < whole implies !is_blank(src[j]) by {
        lemma_run(src, from, CharClass::Digit, j);
    }
    if whole < src.len() && src[whole] == '.' && whole + 1 < src.len() && is_digit(src[whole + 1]) {
        let end = run_end(src, whole + 1, CharClass::Digit);
        lemma_run_bounds(src, whole + 1, CharClass::Digit);
        assert forall|j: int| whole + 1 <= j < end implies !is_blank(src[j]) by {
            lemma_run(src, whole + 1, CharClass::Digit, j);
        }
    }
}

/// What a scan has produced of a simple source up to its offset: neither a
/// diagnostic nor a fatal shape, and as lexemes the text without its
/// blanks.
pub open spec fn faithful(src: Seq<char>, st: Lexing) -> bool {
    &&& 0 <= st.pos <= src.len()
    &&& !st.fatal
    &&& !st.failed
    &&& lexemes(st.tokens, st.tokens.len()) == without_blanks(src, st.pos as nat)
}

/// A token whose lexeme is the text that it covers keeps a scan faithful
/// if that text holds no blank.
proof fn lemma_token(src: Seq<char>, st: Lexing, next: Lexing, end: int)
    requires
        faithful(src, st),
        st.pos <= end <= src.len(),
        forall|j: int| st.pos <= j < end ==> !is_blank(src[j]),
        next.pos == end,
        !next.fatal,
        !next.failed,
        next.tokens.len() == st.tokens.len() + 1,
        next.tokens.subrange(0, st.tokens.len() as int) == st.tokens,
        next.tokens[st.tokens.len() as int].lexeme == src.subrange(st.pos, end),
    ensures
        faithful(src, next),
{
    lemma_keep(src, st.pos, end);
    lemma_lexemes_prefix(next.tokens, st.tokens, st.tokens.len());
}

/// The lexemes of a prefix are those of the first tokens.
proof fn lemma_lexemes_prefix(all: Seq<TokenView>, prefix: Seq<TokenView>, n: nat)
    requires
        n <= prefix.len() <= all.len(),
        all.subrange(0, prefix.len() as int) == prefix,
    ensures
        lexemes(all, n) == lexemes(prefix, n),
    decreases n,
{
    if n > 0 {
        lemma_lexemes_prefix(all, prefix, (n - 1) as nat);
        assert(all.subrange(0, prefix.len() as int)[n - 1] == all[n - 1]);
    }
}

/// One step of the scan of a simple source keeps the scan faithful and
/// moves it on.
proof fn lemma_step(src: Seq<char>, st: Lexing)
    requires
        is_simple(src),
        faithful(src, st),
        st.pos < src.len(),
    ensures
        faithful(src, scan_token(src, st)),
        st.pos < scan_token(src, st).pos,
{
    let p = st.pos;
    let c = src[p];
    let next = scan_token(src, st);
    assert(is_blank(c) || is_alpha_numeric(c) || is_single(c));
    if is_single(c) {
        assert(next == st.token(src, next.tokens[st.tokens.len() as int].kind, p, p + 1));
        assert(next.tokens.subrange(0, st.tokens.len() as int) =~= st.tokens);
        lemma_token(src, st, next, p + 1);
    } else if is_blank(c) {
        assert(next == st.at(p + 1));
        lemma_drop(src, p, p + 1);
    } else if is_digit(c) {
        lemma_number(src, p);
        assert(next == st.number(src, p, number_end(src, p)));
        assert(next.tokens.subrange(0, st.tokens.len() as int) =~= st.tokens);
        lemma_token(src, st, next, number_end(src, p));
    } else {
        assert(is_alpha(c));
        let end = run_end(src, p, CharClass::Word);
        lemma_run_bounds(src, p, CharClass::Word);
        assert forall|j: int| p <= j < end implies !is_blank(src[j]) by {
            lemma_run(src, p, CharClass::Word, j);
        }
        assert(next.tokens.subrange(0, st.tokens.len() as int) =~= st.tokens);
        lemma_token(src, st, next, end);
    }
}

/// The rest of the scan of a simple source keeps the scan faithful and
/// ends at the end of the source.
proof fn lemma_rest(src: Seq<char>, st: Lexing)
    requires
        is_simple(src),
        faithful(src, st),
    ensures
        faithful(src, scan_rest(src, st)),
        scan_rest(src, st).pos == src.len(),
    decreases src.len() - st.pos,
{
    if st.pos < src.len() {
        lemma_step(src, st);
        lemma_rest(src, scan_token(src, st));
    }
}

/// A simple source scans without a diagnostic, and the lexemes of its
/// tokens, one behind the other, are the source without its blanks.
pub proof fn lemma_lexical_round_trip(src: Seq<char>)
    requires
        is_simple(src),
    ensures
        !scan(src).fatal,
        !scan(src).failed,
        lexemes(scan(src).tokens, scan(src).tokens.len()) == without_blanks(src, src.len()),
{
    let p = run_end(src, 0, CharClass::Blank);
    lemma_run_bounds(src, 0, CharClass::Blank);
    assert forall|j: int| 0 <= j < p implies is_blank(src[j]) by {
        lemma_run(src, 0, CharClass::Blank, j);
    }
    lemma_drop(src, 0, p);
    let start = scan_header(src);
    assert(start == Lexing::start().at(p));
    assert(faithful(src, start));
    lemma_rest(src, start);
    let body = scan_rest(src, start);
    let end = scan(src);
    assert(end.tokens.subrange(0, body.tokens.len() as int) =~= body.tokens);
    assert(src.subrange(src.len() as int, src.len() as int) =~= Seq::empty());
    lemma_lexemes_prefix(end.tokens, body.tokens, body.tokens.len());
    assert(lexemes(end.tokens, end.tokens.len()) =~= lexemes(body.tokens, body.tokens.len()));
}

/// Whether a token lies in the source: it covers a stretch of the source,
/// and its lexeme is that stretch or, for a token between delimiters, the
/// stretch without its first and last character.
pub open spec fn placed(src: Seq<char>, t: TokenView) -> bool {
    &&& t.start + t.length <= src.len()
    &&& (t.lexeme == src.subrange(t.start as int, (t.start + t.length) as int) || (t.length >= 2
        && t.lexeme == src.subrange(t.start as int + 1, t.start as int + t.length as int - 1)))
}

/// Whether the tokens lie in the source one behind the other, none behind
/// offset `end`.
#[verifier::opaque]
pub open spec fn in_order(src: Seq<char>, tokens: Seq<TokenView>, end: int) -> bool {
    &&& forall|i: int| 0 <= i < tokens.len() ==> placed(src, #[trigger] tokens[i])
    &&& forall|i: int|
        0 <= i < tokens.len() ==> (#[trigger] tokens[i]).start + tokens[i].length <= end
    &&& forall|i: int, j: int|
        0 <= i < j < tokens.len() ==> (#[trigger] tokens[i]).start + tokens[i].length <= (
        #[trigger] tokens[j]).start
}

/// What a scan has kept in order up to its offset.
pub open spec fn orderly(src: Seq<char>, st: Lexing) -> bool {
    0 <= st.pos <= src.len() && in_order(src, st.tokens, st.pos)
}

/// A token behind the offset of an orderly scan keeps the scan orderly,
/// whatever its kind.
proof fn lemma_span(src: Seq<char>, st: Lexing, start: int, end: int)
    requires
        orderly(src, st),
    ensures
        st.pos <= start <= end <= src.len() ==> forall|kind: TokenType, numeric: bool| #[trigger]
            orderly(src, st.lexed(src, kind, start, end, start, end, numeric)),
        st.pos <= start && start + 2 <= end <= src.len() ==> forall|kind: TokenType| #[trigger]
            orderly(src, st.lexed(src, kind, start, end, start + 1, end - 1, false)),
{
    reveal(in_order);
}

/// A scan that moves on without a token stays orderly.
proof fn lemma_same(src: Seq<char>, st: Lexing)
    requires
        orderly(src, st),
    ensures
        forall|next: Lexing|
            next.tokens == st.tokens && st.pos <= next.pos <= src.len() ==> #[trigger] orderly(
                src,
                next,
            ),
{
    reveal(in_order);
}

/// An unescaped quote is found at or behind the offset where the search
/// for it begins.
proof fn lemma_quote_end(src: Seq<char>, from: int, quote: char)
    requires
        0 <= from <= src.len(),
    ensures
        from <= quote_end(src, from, quote) <= src.len(),
    decreases src.len() - from,
{
    if from < src.len() {
        if src[from] == '\\' {
            if from + 1 < src.len() {
                lemma_quote_end(src, from + 2, quote);
            }
        } else if src[from] != quote {
            lemma_quote_end(src, from + 1, quote);
        }
    }
}

/// Where three characters are found they stand inside the source.
proof fn lemma_triple_start(src: Seq<char>, from: int, a: char, b: char, c: char)
    requires
        0 <= from <= src.len(),
    ensures
        from <= triple_start(src, from, a, b, c) <= src.len(),
        triple_start(src, from, a, b, c) < src.len() ==> triple_start(src, from, a, b, c) + 3
            <= src.len(),
    decreases src.len() - from,
{
    if from < src.len() && !triple_at(src, from, a, b, c) {
        lemma_triple_start(src, from + 1, a, b, c);
    }
}

/// The end of a number lies in the source, at or behind its first digit.
proof fn lemma_number_end(src: Seq<char>, from: int)
    requires
        0 <= from <= src.len(),
    ensures
        from <= number_end(src, from) <= src.len(),
{
    let whole = run_end(src, from, CharClass::Digit);
    lemma_run_bounds(src, from, CharClass::Digit);
    if whole + 1 <= src.len() {
        lemma_run_bounds(src, whole + 1, CharClass::Digit);
    }
}

/// The alternatives of a pattern keep a scan orderly.
proof fn lemma_patterns(src: Seq<char>, st: Lexing, numeric: bool, start: int, i: int)
    requires
        orderly(src, st),
        st.pos <= start <= i <= src.len(),
    ensures
        orderly(src, scan_patterns(src, st, numeric, start, i)),
        scan_patterns(src, st, numeric, start, i).pos >= i,
    decreases src.len() - i,
{
    lemma_same(src, st);
    if i < src.len() {
        if src[i] == '|' || src[i] == '/' {
            lemma_span(src, st, start, i);
            let plain = st.token(src, TokenType::Error, start, i);
            lemma_same(src, plain);
            let one = st.pattern(src, numeric, start, i);
            assert(orderly(src, one));
            lemma_span(src, one, i, i + 1);
            if src[i] == '|' {
                lemma_patterns(src, one.token(src, TokenType::Pipe, i, i + 1), numeric, i + 1, i + 1);
            }
        } else {
            lemma_patterns(src, st, numeric, start, i + 1);
        }
    }
}

/// What one step of a scan takes from an orderly scan: it stays orderly
/// and has moved on.
spec fn stepped(src: Seq<char>, st: Lexing, next: Lexing) -> bool {
    orderly(src, next) && st.pos < next.pos
}

/// The tokens of one to five characters that begin at the offset keep the
/// scan orderly.
proof fn lemma_short(src: Seq<char>, st: Lexing)
    requires
        orderly(src, st),
    ensures
        forall|kind: TokenType, n: int|
            1 <= n <= 5 && st.pos + n <= src.len() ==> #[trigger] orderly(
                src,
                st.token(src, kind, st.pos, st.pos + n),
            ),
{
    lemma_span(src, st, st.pos, st.pos + 1);
    lemma_span(src, st, st.pos, st.pos + 2);
    lemma_span(src, st, st.pos, st.pos + 3);
    lemma_span(src, st, st.pos, st.pos + 4);
    lemma_span(src, st, st.pos, st.pos + 5);
}

proof fn lemma_dash(src: Seq<char>, st: Lexing)
    requires
        orderly(src, st),
        st.pos < src.len(),
    ensures
        stepped(src, st, scan_dash(src, st)),
{
    let p = st.pos;
    lemma_short(src, st);
    lemma_span(src, st, p, p + 1 + "interface-"@.len());
    lemma_span(src, st, p, p + 1 + "machine-"@.len());
    lemma_span(src, st, p, p + 1 + "actions-"@.len());
    lemma_span(src, st, p, p + 1 + "domain-"@.len());
    if p + 3 <= src.len() {
        lemma_run_bounds(src, p + 3, CharClass::Line);
        lemma_span(src, st, p, run_end(src, p + 3, CharClass::Line));
    }
    lemma_number_end(src, p + 1);
    lemma_span(src, st, p, number_end(src, p + 1));
}

proof fn lemma_brace(src: Seq<char>, st: Lexing)
    requires
        orderly(src, st),
        st.pos < src.len(),
    ensures
        stepped(src, st, scan_brace(src, st)),
{
    let p = st.pos;
    lemma_short(src, st);
    lemma_same(src, st);
    if p + 3 <= src.len() {
        lemma_triple_start(src, p + 3, '-', '-', '}');
        lemma_span(src, st, p, triple_start(src, p + 3, '-', '-', '}') + 3);
    }
}

proof fn lemma_quoted(src: Seq<char>, st: Lexing)
    requires
        orderly(src, st),
        st.pos < src.len(),
    ensures
        stepped(src, st, scan_string(src, st)),
        stepped(src, st, scan_super_string(src, st)),
{
    let p = st.pos;
    lemma_same(src, st);
    lemma_quote_end(src, p + 1, '"');
    lemma_quote_end(src, p + 1, '`');
    lemma_span(src, st, p, quote_end(src, p + 1, '"') + 1);
    lemma_span(src, st, p, quote_end(src, p + 1, '`') + 1);
}

proof fn lemma_slash(src: Seq<char>, st: Lexing)
    requires
        orderly(src, st),
        st.pos < src.len(),
    ensures
        stepped(src, st, scan_slash(src, st)),
{
    let p = st.pos;
    lemma_short(src, st);
    let open = st.token(src, TokenType::ForwardSlash, p, p + 1);
    lemma_patterns(src, open, false, p + 1, p + 1);
    lemma_patterns(src, open, true, p + 1, p + 1);
}

proof fn lemma_tests(src: Seq<char>, st: Lexing)
    requires
        orderly(src, st),
        st.pos < src.len(),
    ensures
        stepped(src, st, scan_question(src, st)),
        stepped(src, st, scan_colon(src, st)),
{
    let p = st.pos;
    lemma_short(src, st);
    if p + 2 <= src.len() {
        lemma_same(src, st.token(src, TokenType::BoolTestFalse, p, p + 2));
        lemma_same(src, st.token(src, TokenType::StringTest, p, p + 2));
        lemma_same(src, st.token(src, TokenType::NumberTest, p, p + 2));
        lemma_same(src, st.token(src, TokenType::TestTerminator, p, p + 2));
    }
    lemma_same(src, st.token(src, TokenType::BoolTestTrue, p, p + 1));
}

proof fn lemma_operators(src: Seq<char>, st: Lexing)
    requires
        orderly(src, st),
        st.pos < src.len(),
    ensures
        stepped(src, st, scan_pipe(src, st)),
        stepped(src, st, scan_dollar(src, st)),
        stepped(src, st, scan_greater(src, st)),
        stepped(src, st, scan_less(src, st)),
        stepped(src, st, scan_ampersand(src, st)),
        stepped(src, st, scan_hash(src, st)),
        stepped(src, st, scan_equals(src, st)),
{
    lemma_short(src, st);
    lemma_same(src, st);
}

proof fn lemma_words(src: Seq<char>, st: Lexing)
    requires
        orderly(src, st),
        st.pos < src.len(),
    ensures
        is_alpha(src[st.pos]) ==> stepped(src, st, scan_word(src, st)),
        is_digit(src[st.pos]) ==> stepped(
            src,
            st,
            st.number(src, st.pos, number_end(src, st.pos)),
        ),
{
    let p = st.pos;
    lemma_run_bounds(src, p, CharClass::Word);
    lemma_number_end(src, p);
    if is_digit(src[p]) {
        lemma_number(src, p);
    }
    lemma_span(src, st, p, run_end(src, p, CharClass::Word));
    lemma_span(src, st, p, number_end(src, p));
}

/// One step of a scan keeps it orderly and moves it on.
proof fn lemma_step_orderly(src: Seq<char>, st: Lexing)
    requires
        orderly(src, st),
        st.pos < src.len(),
    ensures
        orderly(src, scan_token(src, st)),
        st.pos < scan_token(src, st).pos,
{
    lemma_short(src, st);
    lemma_same(src, st);
    lemma_dash(src, st);
    lemma_brace(src, st);
    lemma_quoted(src, st);
    lemma_slash(src, st);
    lemma_tests(src, st);
    lemma_operators(src, st);
    lemma_words(src, st);
    let reported = st.report(line_at(src, st.pos), unexpected_character(src[st.pos]));
    lemma_same(src, reported);
    lemma_short(src, reported);
    lemma_span(src, reported, st.pos, st.pos + 1);
}

/// The rest of a scan keeps it orderly.
proof fn lemma_rest_orderly(src: Seq<char>, st: Lexing)
    requires
        orderly(src, st),
    ensures
        orderly(src, scan_rest(src, st)),
    decreases src.len() - st.pos,
{
    if !st.fatal && st.pos < src.len() {
        lemma_step_orderly(src, st);
        lemma_rest_orderly(src, scan_token(src, st));
    }
}

/// Every token of a scan lies in the source, and the tokens lie one behind
/// the other in the order in which the scan gives them.
pub proof fn lemma_tokens_lie_in_the_source(src: Seq<char>)
    ensures
        in_order(src, scan(src).tokens, src.len() as int),
{
    let p = run_end(src, 0, CharClass::Blank);
    lemma_run_bounds(src, 0, CharClass::Blank);
    let first = Lexing::start();
    assert(orderly(src, first)) by {
        reveal(in_order);
    }
    lemma_same(src, first);
    lemma_span(src, first, p, p + 3);
    if p + 3 <= src.len() {
        let open = first.quoted(src, TokenType::ThreeTicks, p, p + 3);
        lemma_same(src, open);
        lemma_triple_start(src, p + 3, '`', '`', '`');
        let close = triple_start(src, p + 3, '`', '`', '`');
        lemma_span(src, open, p + 3, close);
        if close < src.len() {
            lemma_span(src, open.token(src, TokenType::SuperString, p + 3, close), close, close + 3);
        }
    }
    let start = scan_header(src);
    assert(orderly(src, start));
    lemma_rest_orderly(src, start);
    let body = scan_rest(src, start);
    lemma_span(src, body, src.len() as int, src.len() as int);
    lemma_same(src, body);
    if body.fatal {
        assert(orderly(src, body.at(src.len() as int)));
    } else {
        assert(orderly(
            src,
            body.token(src, TokenType::Eof, src.len() as int, src.len() as int),
        ));
    }
}

} // verus!
