//! Tokens: what the lexer hands to the parser.
use vstd::prelude::*;
use vstd::string::StringExecFns;

verus! {

/// The kind of a [`Token`].
#[derive(Debug, Clone, Copy, PartialEq, Eq, Structural, Hash)]
pub enum TokenKind {
    /// The end of the input: stands where there is no token.
    EndOfInput,
    /// `=`
    Equal,
    /// `:`
    Colon,
    /// `:=`
    ColonEqual,
    /// `+`
    Plus,
    /// `+=`
    PlusEqual,
    /// `-`
    Minus,
    /// `-=`
    MinusEqual,
    /// `*`
    Star,
    /// `*=`
    StarEqual,
    /// `/`
    Slash,
    /// `/=`
    SlashEqual,
    /// `;`
    Semicolon,
    /// `&`: bitwise and
    Ampersand,
    /// `|`: bitwise or
    Pipe,
    /// `^`: bitwise exclusive or
    Caret,
    /// `~`: bitwise not
    Tilde,
    /// `&&`: logical and
    And,
    /// `||`: logical or
    Or,
    /// `!`: logical not
    Bang,
    /// `!=`
    BangEqual,
    /// `==`
    EqualEqual,
    /// `<`
    Less,
    /// `<=`
    LessEqual,
    /// `>`
    Greater,
    /// `>=`
    GreaterEqual,
    /// `?`
    QMark,
    /// `(`
    LeftParen,
    /// `)`
    RightParen,
    /// The keyword `nil`
    Nil,
    /// The keyword `true`
    True,
    /// The keyword `false`
    False,
    /// The keyword `print`
    Print,
    /// An identifier
    Ident,
    /// A decimal number with a dot
    FloatNumber,
    /// A hexadecimal number
    HexNumber,
    /// A decimal number without a dot
    IntNumber,
    /// A text between single quotes
    String,
    /// The name of an enum value that the host registered
    Enum,
}

impl TokenKind {
    /// How the kind is shown in messages.
    pub open spec fn text(self) -> Seq<char> {
        match self {
            TokenKind::EndOfInput => "NONE"@,
            TokenKind::Equal => "="@,
            TokenKind::Colon => ":"@,
            TokenKind::ColonEqual => ":="@,
            TokenKind::Plus => "+"@,
            TokenKind::PlusEqual => "+="@,
            TokenKind::Minus => "-"@,
            TokenKind::MinusEqual => "-="@,
            TokenKind::Star => "*"@,
            TokenKind::StarEqual => "*="@,
            TokenKind::Slash => "/"@,
            TokenKind::SlashEqual => "/="@,
            TokenKind::Semicolon => ";"@,
            TokenKind::Ampersand => "&"@,
            TokenKind::Pipe => "|"@,
            TokenKind::Caret => "^"@,
            TokenKind::Tilde => "~"@,
            TokenKind::And => "&&"@,
            TokenKind::Or => "||"@,
            TokenKind::Bang => "!"@,
            TokenKind::BangEqual => "!="@,
            TokenKind::EqualEqual => "=="@,
            TokenKind::Less => "<"@,
            TokenKind::LessEqual => "<="@,
            TokenKind::Greater => ">"@,
            TokenKind::GreaterEqual => ">="@,
            TokenKind::QMark => "?"@,
            TokenKind::LeftParen => "("@,
            TokenKind::RightParen => ")"@,
            TokenKind::Nil => "'nil'"@,
            TokenKind::True => "'true'"@,
            TokenKind::False => "'false'"@,
            TokenKind::Print => "'print'"@,
            TokenKind::Ident => "an 'Ident'"@,
            TokenKind::FloatNumber => "a 'FloatNumber'"@,
            TokenKind::HexNumber => "a 'HexNumber'"@,
            TokenKind::IntNumber => "a 'IntNumber'"@,
            TokenKind::String => "a 'String'"@,
            TokenKind::Enum => "an 'Enum'"@,
        }
    }

    /// How the kind is shown in messages.
    pub fn to_string(&self) -> (s: String)
        ensures
            s@ == self.text(),
    {
        let text = match self {
            TokenKind::EndOfInput => "NONE",
            TokenKind::Equal => "=",
            TokenKind::Colon => ":",
            TokenKind::ColonEqual => ":=",
            TokenKind::Plus => "+",
            TokenKind::PlusEqual => "+=",
            TokenKind::Minus => "-",
            TokenKind::MinusEqual => "-=",
            TokenKind::Star => "*",
            TokenKind::StarEqual => "*=",
            TokenKind::Slash => "/",
            TokenKind::SlashEqual => "/=",
            TokenKind::Semicolon => ";",
            TokenKind::Ampersand => "&",
            TokenKind::Pipe => "|",
            TokenKind::Caret => "^",
            TokenKind::Tilde => "~",
            TokenKind::And => "&&",
            TokenKind::Or => "||",
            TokenKind::Bang => "!",
            TokenKind::BangEqual => "!=",
            TokenKind::EqualEqual => "==",
            TokenKind::Less => "<",
            TokenKind::LessEqual => "<=",
            TokenKind::Greater => ">",
            TokenKind::GreaterEqual => ">=",
            TokenKind::QMark => "?",
            TokenKind::LeftParen => "(",
            TokenKind::RightParen => ")",
            TokenKind::Nil => "'nil'",
            TokenKind::True => "'true'",
            TokenKind::False => "'false'",
            TokenKind::Print => "'print'",
            TokenKind::Ident => "an 'Ident'",
            TokenKind::FloatNumber => "a 'FloatNumber'",
            TokenKind::HexNumber => "a 'HexNumber'",
            TokenKind::IntNumber => "a 'IntNumber'",
            TokenKind::String => "a 'String'",
            TokenKind::Enum => "an 'Enum'",
        };
        String::from_str(text)
    }
}

/// A token of the source text.
#[derive(Debug, PartialEq, Eq)]
pub struct Token {
    /// The text that the token was made of: for a string without its quotes.
    pub origin: String,
    /// Where the token starts: the count of bytes before it.
    pub offset: usize,
    /// The line in which the token starts, the first line being 1.
    pub line: usize,
    /// The kind of the token.
    pub kind: TokenKind,
}

/// What a [`Token`] holds, as plain values.
pub struct Lexeme {
    pub origin: Seq<char>,
    pub offset: nat,
    pub line: nat,
    pub kind: TokenKind,
}

impl View for Token {
    type V = Lexeme;

    open spec fn view(&self) -> Lexeme {
        Lexeme {
            origin: self.origin@,
            offset: self.offset as nat,
            line: self.line as nat,
            kind: self.kind,
        }
    }
}

impl Lexeme {
    /// The token that stands for the end of the input.
    pub open spec fn none() -> Lexeme {
        Lexeme { origin: Seq::empty(), offset: 0, line: 0, kind: TokenKind::EndOfInput }
    }
}

impl Clone for Token {
    fn clone(&self) -> (token: Token)
        ensures
            token == *self,
    {
        Token { origin: self.origin.clone(), offset: self.offset, line: self.line, kind: self.kind }
    }
}

impl Token {
    /// The kind of the token.
    pub fn kind(&self) -> (kind: TokenKind)
        ensures
            kind == self.kind,
    {
        self.kind
    }

    /// The token that stands for the end of the input.
    pub fn none() -> (token: Token)
        ensures
            token@ == Lexeme::none(),
    {
        Token { origin: String::new(), offset: 0, line: 0, kind: TokenKind::EndOfInput }
    }
}

} // verus!
