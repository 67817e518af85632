//! Lexical tokens of the Frame language.

use vstd::prelude::*;

verus! {

/// The closed set of token kinds.
#[allow(clippy::upper_case_acronyms)]
#[derive(Copy, Clone, Debug, PartialEq, Eq, Structural)]
pub enum TokenType {
    Eof,
    Identifier,
    /// `$`
    State,
    /// `>`
    GT,
    /// `>>`
    GTx2,
    /// `>>>`
    GTx3,
    /// `+`
    Plus,
    /// `-`
    Dash,
    /// `--`
    DashDash,
    /// `*`
    Star,
    /// `==`
    EqualEqual,
    /// `!`
    Bang,
    /// `!=`
    BangEqual,
    /// `>=`
    GreaterEqual,
    /// `<=`
    LessEqual,
    /// `<`
    LT,
    /// `<<`
    LTx2,
    /// `<<<`
    LTx3,
    /// `&`
    And,
    /// `|`
    Pipe,
    /// `^`
    Caret,
    /// `&&`
    LogicalAnd,
    /// `&|`
    LogicalXor,
    /// `#`
    System,
    /// `##`
    SystemEnd,
    /// `#[`
    OuterAttribute,
    /// `#![`
    InnerAttribute,
    /// `-interface-`
    InterfaceBlock,
    /// `-machine-`
    MachineBlock,
    /// `-actions-`
    ActionsBlock,
    /// `-domain-`
    DomainBlock,
    LParen,
    RParen,
    LBracket,
    RBracket,
    /// `->`
    Transition,
    /// `->>`
    ChangeState,
    /// `"text"`
    String,
    /// Three backticks, opening or closing the header.
    ThreeTicks,
    /// `` `text` ``, or the text of the header.
    SuperString,
    /// `1`, `1.01`
    Number,
    /// `var`
    Var,
    /// `const`
    Const,
    /// `--- text`
    SingleLineComment,
    /// `{-- text --}`
    MultiLineComment,
    /// `{`
    OpenBrace,
    /// `}`
    CloseBrace,
    /// `true`
    True,
    /// `false`
    False,
    /// `null`
    Null,
    /// `nil`
    Nil,
    /// `:`
    Colon,
    /// `;`
    Semicolon,
    /// `=>`
    Dispatch,
    /// `=`
    Equals,
    /// `?`
    BoolTestTrue,
    /// `?!`
    BoolTestFalse,
    /// `?~`
    StringTest,
    /// `?#`
    NumberTest,
    /// `:>`
    ElseContinue,
    /// `::`
    TestTerminator,
    /// `/`
    ForwardSlash,
    /// One alternative of a string pattern.
    MatchString,
    /// `//!`
    MatchNullString,
    /// `//`
    MatchEmptyString,
    /// `$$[+]`
    StateStackOperationPush,
    /// `$$[-]`
    StateStackOperationPop,
    /// `.`
    Dot,
    /// `@`
    At,
    /// `||`
    PipePipe,
    /// `||.`
    PipePipeDot,
    /// `||[`
    PipePipeLBracket,
    /// `||*`
    AnyMessage,
    Error,
}

/// The kind of test whose patterns are being scanned.
#[derive(Copy, Clone, Debug, PartialEq, Eq, Structural)]
pub enum MatchType {
    Bool,
    String,
    Number,
}

/// The value a token carries besides its lexeme.
#[derive(Debug, Clone)]
pub enum TokenLiteral {
    /// The decimal numeral of a number token, as written in the source.
    Number(std::string::String),
    /// Every token but a number.
    Absent,
}

impl View for TokenLiteral {
    type V = Option<Seq<char>>;

    open spec fn view(&self) -> Option<Seq<char>> {
        match self {
            TokenLiteral::Number(text) => Some(text@),
            TokenLiteral::Absent => None,
        }
    }
}

impl TokenLiteral {
    /// A copy of this literal.
    pub fn duplicate(&self) -> (copy: TokenLiteral)
        ensures
            copy@ == self@,
    {
        match self {
            TokenLiteral::Number(text) => TokenLiteral::Number(text.clone()),
            TokenLiteral::Absent => TokenLiteral::Absent,
        }
    }
}

/// One lexical token with its place in the source.
#[derive(Debug, Clone)]
pub struct Token {
    pub token_type: TokenType,
    pub lexeme: std::string::String,
    pub literal: TokenLiteral,
    /// Line on which the token ends, counted from 1.
    pub line: usize,
    /// Offset of the token's first character.
    pub start: usize,
    /// Number of characters the token covers in the source.
    pub length: usize,
}

/// A token as contracts see it.
pub ghost struct TokenView {
    pub kind: TokenType,
    pub lexeme: Seq<char>,
    pub literal: Option<Seq<char>>,
    pub line: nat,
    pub start: nat,
    pub length: nat,
}

impl View for Token {
    type V = TokenView;

    open spec fn view(&self) -> TokenView {
        TokenView {
            kind: self.token_type,
            lexeme: self.lexeme@,
            literal: self.literal@,
            line: self.line as nat,
            start: self.start as nat,
            length: self.length as nat,
        }
    }
}

impl Token {
    pub fn new(
        token_type: TokenType,
        lexeme: std::string::String,
        literal: TokenLiteral,
        line: usize,
        start: usize,
        length: usize,
    ) -> (token: Token)
        ensures
            token.token_type == token_type,
            token.lexeme == lexeme,
            token.literal == literal,
            token.line == line,
            token.start == start,
            token.length == length,
    {
        Token { token_type, lexeme, literal, line, start, length }
    }

    /// A copy of this token.
    pub fn duplicate(&self) -> (copy: Token)
        ensures
            copy@ == self@,
    {
        Token {
            token_type: self.token_type,
            lexeme: self.lexeme.clone(),
            literal: self.literal.duplicate(),
            line: self.line,
            start: self.start,
            length: self.length,
        }
    }
}

/// The tokens of a vector as contracts see them.
pub open spec fn token_views(tokens: Seq<Token>) -> Seq<TokenView> {
    Seq::new(tokens.len(), |i: int| tokens[i]@)
}

} // verus!
