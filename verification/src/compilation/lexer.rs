//! The lexer: from the characters of a script to its tokens.
use super::error::{CompilationError, CompilationFault};
use super::token::{Lexeme, Token, TokenKind};
use crate::script_enum::EnumTable;
use crate::text::{byte_len, char_width, chars_within, lemma_byte_len_take, string_of};
use vstd::prelude::*;
use vstd::string::StrSliceExecFns;

verus! {

/// A class of characters that a token may run over.
#[derive(Debug, Clone, Copy, PartialEq, Eq, Structural)]
pub enum CharClass {
    /// White space, line breaks included.
    Blank,
    /// The decimal digits.
    Digit,
    /// The hexadecimal digits.
    HexDigit,
    /// What an identifier goes on with: letters, digits and the underscore.
    Ident,
    /// What a string holds: every character but the single quote.
    Text,
}

/// Whether a character is white space: a character with the property
/// `White_Space` of Unicode.
pub open spec fn is_blank(c: char) -> bool {
    ||| '\u{9}' <= c <= '\u{D}'
    ||| c == ' '
    ||| c == '\u{85}'
    ||| c == '\u{A0}'
    ||| c == '\u{1680}'
    ||| '\u{2000}' <= c <= '\u{200A}'
    ||| c == '\u{2028}'
    ||| c == '\u{2029}'
    ||| c == '\u{202F}'
    ||| c == '\u{205F}'
    ||| c == '\u{3000}'
}

/// Whether an identifier may start with the character.
pub open spec fn starts_ident(c: char) -> bool {
    ('a' <= c <= 'z') || ('A' <= c <= 'Z') || c == '_' || c == '@'
}

impl CharClass {
    /// Whether the character belongs to the class.
    pub open spec fn holds(self, c: char) -> bool {
        match self {
            CharClass::Blank => is_blank(c),
            CharClass::Digit => '0' <= c <= '9',
            CharClass::HexDigit => ('0' <= c <= '9') || ('a' <= c <= 'f') || ('A' <= c <= 'F'),
            CharClass::Ident => ('a' <= c <= 'z') || ('A' <= c <= 'Z') || ('0' <= c <= '9') || c
                == '_',
            CharClass::Text => c != '\'',
        }
    }

    /// Whether the character belongs to the class.
    pub fn accepts(self, c: char) -> (yes: bool)
        ensures
            yes == self.holds(c),
    {
        match self {
            CharClass::Blank => ('\u{9}' <= c && c <= '\u{D}') || c == ' ' || c == '\u{85}' || c
                == '\u{A0}' || c == '\u{1680}' || ('\u{2000}' <= c && c <= '\u{200A}') || c
                == '\u{2028}' || c == '\u{2029}' || c == '\u{202F}' || c == '\u{205F}' || c
                == '\u{3000}',
            CharClass::Digit => '0' <= c && c <= '9',
            CharClass::HexDigit => ('0' <= c && c <= '9') || ('a' <= c && c <= 'f') || ('A' <= c
                && c <= 'F'),
            CharClass::Ident => ('a' <= c && c <= 'z') || ('A' <= c && c <= 'Z') || ('0' <= c && c
                <= '9') || c == '_',
            CharClass::Text => c != '\'',
        }
    }
}

/// Where the run of characters of a class that starts at `from` ends: the
/// place of the first character from there on that is not of the class, or
/// the end of the text.
pub open spec fn run_end(source: Seq<char>, from: int, class: CharClass) -> int
    decreases source.len() - from,
{
    if 0 <= from < source.len() && class.holds(source[from]) {
        run_end(source, from + 1, class)
    } else {
        from
    }
}

/// The count of the line breaks from `from` up to `to`.
pub open spec fn line_breaks(source: Seq<char>, from: int, to: int) -> nat
    decreases to - from,
{
    if from < to {
        line_breaks(source, from, to - 1) + if source[to - 1] == '\n' {
            1nat
        } else {
            0nat
        }
    } else {
        0
    }
}

/// The token that is a single character, if the character is one.
pub open spec fn single_token(c: char) -> Option<TokenKind> {
    if c == '(' {
        Some(TokenKind::LeftParen)
    } else if c == ')' {
        Some(TokenKind::RightParen)
    } else if c == ';' {
        Some(TokenKind::Semicolon)
    } else if c == '^' {
        Some(TokenKind::Caret)
    } else if c == '~' {
        Some(TokenKind::Tilde)
    } else if c == '?' {
        Some(TokenKind::QMark)
    } else {
        None
    }
}

/// A token of one character that becomes another token when a second
/// character follows it.
pub struct Pair {
    /// The character that has to follow.
    pub second: char,
    /// The token of both characters.
    pub both: TokenKind,
    /// The token of the first character alone.
    pub alone: TokenKind,
}

/// The tokens that start with the character and may go on with a second
/// one, if there are such.
pub open spec fn pair_token(c: char) -> Option<Pair> {
    if c == ':' {
        Some(Pair { second: '=', both: TokenKind::ColonEqual, alone: TokenKind::Colon })
    } else if c == '=' {
        Some(Pair { second: '=', both: TokenKind::EqualEqual, alone: TokenKind::Equal })
    } else if c == '!' {
        Some(Pair { second: '=', both: TokenKind::BangEqual, alone: TokenKind::Bang })
    } else if c == '+' {
        Some(Pair { second: '=', both: TokenKind::PlusEqual, alone: TokenKind::Plus })
    } else if c == '-' {
        Some(Pair { second: '=', both: TokenKind::MinusEqual, alone: TokenKind::Minus })
    } else if c == '*' {
        Some(Pair { second: '=', both: TokenKind::StarEqual, alone: TokenKind::Star })
    } else if c == '/' {
        Some(Pair { second: '=', both: TokenKind::SlashEqual, alone: TokenKind::Slash })
    } else if c == '<' {
        Some(Pair { second: '=', both: TokenKind::LessEqual, alone: TokenKind::Less })
    } else if c == '>' {
        Some(Pair { second: '=', both: TokenKind::GreaterEqual, alone: TokenKind::Greater })
    } else if c == '&' {
        Some(Pair { second: '&', both: TokenKind::And, alone: TokenKind::Ampersand })
    } else if c == '|' {
        Some(Pair { second: '|', both: TokenKind::Or, alone: TokenKind::Pipe })
    } else {
        None
    }
}

/// The kind of a word: a keyword, the name of an enum value, or an
/// identifier.
pub open spec fn word_kind(word: Seq<char>, names: Map<Seq<char>, i8>) -> TokenKind {
    if word == "false"@ {
        TokenKind::False
    } else if word == "nil"@ {
        TokenKind::Nil
    } else if word == "print"@ {
        TokenKind::Print
    } else if word == "true"@ {
        TokenKind::True
    } else if names.contains_key(word) {
        TokenKind::Enum
    } else {
        TokenKind::Ident
    }
}

/// What the lexer finds from a place on, and where it stands afterwards.
pub struct Scan {
    /// The token or the error; nothing at the end of the input.
    pub item: Option<Result<Lexeme, CompilationFault>>,
    /// The place of the first character that is not read yet.
    pub index: int,
    /// The line that the lexer is in.
    pub line: nat,
}

/// A token that starts at `from` and ends before `to`.
pub open spec fn token_at(
    source: Seq<char>,
    kind: TokenKind,
    from: int,
    to: int,
    line: nat,
) -> Option<Result<Lexeme, CompilationFault>> {
    Some(
        Ok(
            Lexeme {
                origin: source.subrange(from, to),
                offset: byte_len(source.take(from)),
                line,
                kind,
            },
        ),
    )
}

/// The number that starts at `index`, where a digit stands.
///
/// A digit followed by `x` starts a hexadecimal number, which takes the
/// hexadecimal digits that follow. Else the number takes the digits that
/// follow, and one dot with the digits behind it: without a digit behind it
/// the dot is left, unless a second dot follows at once.
pub open spec fn scan_number(source: Seq<char>, index: int, line: nat) -> Scan {
    if index + 1 < source.len() && source[index + 1] == 'x' {
        let end = run_end(source, index + 2, CharClass::HexDigit);
        Scan { item: token_at(source, TokenKind::HexNumber, index, end, line), index: end, line }
    } else {
        let dot = run_end(source, index, CharClass::Digit);
        if dot < source.len() && source[dot] == '.' {
            let end = run_end(source, dot + 1, CharClass::Digit);
            if end == dot + 1 && !(end < source.len() && source[end] == '.') {
                Scan {
                    item: token_at(source, TokenKind::IntNumber, index, dot, line),
                    index: dot,
                    line,
                }
            } else {
                Scan {
                    item: token_at(source, TokenKind::FloatNumber, index, end, line),
                    index: end,
                    line,
                }
            }
        } else {
            Scan { item: token_at(source, TokenKind::IntNumber, index, dot, line), index: dot, line }
        }
    }
}

/// What the lexer finds in `source` from `index` on, being in line `line`.
///
/// White space is passed over, and a line break adds one to the line. What
/// follows is a token or an error, both with the line in which they start.
/// The white space behind an operator that may go on with a second
/// character is passed over with the operator. The line breaks in a string
/// are not counted.
pub open spec fn scan(source: Seq<char>, names: Map<Seq<char>, i8>, index: int, line: nat) -> Scan
    decreases source.len() - index,
{
    if !(0 <= index < source.len()) {
        Scan { item: None, index, line }
    } else {
        let c = source[index];
        if single_token(c) is Some {
            Scan {
                item: token_at(source, single_token(c)->0, index, index + 1, line),
                index: index + 1,
                line,
            }
        } else if pair_token(c) is Some {
            let pair = pair_token(c)->0;
            let gap = run_end(source, index + 1, CharClass::Blank);
            let behind = line + line_breaks(source, index + 1, gap);
            if gap < source.len() && source[gap] == pair.second {
                Scan {
                    item: token_at(source, pair.both, index, gap + 1, line),
                    index: gap + 1,
                    line: behind,
                }
            } else {
                Scan {
                    item: token_at(source, pair.alone, index, index + 1, line),
                    index: gap,
                    line: behind,
                }
            }
        } else if c == '\'' {
            let end = run_end(source, index + 1, CharClass::Text);
            if end < source.len() {
                Scan {
                    item: Some(
                        Ok(
                            Lexeme {
                                origin: source.subrange(index + 1, end),
                                offset: byte_len(source.take(index)),
                                line,
                                kind: TokenKind::String,
                            },
                        ),
                    ),
                    index: end + 1,
                    line,
                }
            } else {
                Scan {
                    item: Some(
                        Err(
                            CompilationFault::UnterminatedString {
                                str: source.skip(index),
                                pos: line,
                            },
                        ),
                    ),
                    index: index + 1,
                    line,
                }
            }
        } else if CharClass::Digit.holds(c) {
            scan_number(source, index, line)
        } else if starts_ident(c) {
            let end = run_end(source, index + 1, CharClass::Ident);
            Scan {
                item: token_at(
                    source,
                    word_kind(source.subrange(index, end), names),
                    index,
                    end,
                    line,
                ),
                index: end,
                line,
            }
        } else if c == '\n' {
            scan(source, names, index + 1, line + 1)
        } else if is_blank(c) {
            scan(source, names, index + 1, line)
        } else {
            Scan {
                item: Some(Err(CompilationFault::UnexpectedChar { c, pos: line })),
                index: index + 1,
                line,
            }
        }
    }
}

/// What an item of the lexer holds, as plain values.
pub open spec fn lexed(item: Option<Result<Token, CompilationError>>) -> Option<
    Result<Lexeme, CompilationFault>,
> {
    match item {
        None => None,
        Some(Ok(token)) => Some(Ok(token@)),
        Some(Err(error)) => Some(Err(error@)),
    }
}

/// A run ends behind its start, inside the text, at a character that is
/// not of the class, and holds only characters of the class.
pub proof fn lemma_run_end(source: Seq<char>, from: int, class: CharClass)
    requires
        0 <= from <= source.len(),
    ensures
        from <= run_end(source, from, class) <= source.len(),
        run_end(source, from, class) < source.len() ==> !class.holds(
            source[run_end(source, from, class)],
        ),
        forall|i: int| from <= i < run_end(source, from, class) ==> class.holds(#[trigger] source[i]),
    decreases source.len() - from,
{
    if from < source.len() && class.holds(source[from]) {
        lemma_run_end(source, from + 1, class);
    }
}

/// Where the lexer stands in its text.
#[derive(Debug, Clone, Copy)]
struct Cursor {
    /// The place of the next character.
    index: usize,
    /// The count of the bytes before it.
    pos: usize,
    /// The count of the line breaks that were passed.
    breaks: usize,
}

/// The lexer: it reads a script token by token.
#[derive(Debug)]
pub struct Lexer<'a> {
    /// The enum values that the host has registered.
    enums: &'a EnumTable,
    /// The characters of the script.
    whole: Vec<char>,
    /// Where the lexer stands.
    cursor: Cursor,
}

/// What a [`Lexer`] holds, as plain values.
pub struct LexerState {
    /// The characters of the script.
    pub source: Seq<char>,
    /// The enum values that the host has registered.
    pub names: Map<Seq<char>, i8>,
    /// The place of the first character that is not read yet.
    pub index: int,
    /// The line that the lexer is in, the first line being 1.
    pub line: nat,
}

impl LexerState {
    /// What the lexer finds next.
    pub open spec fn scan(self) -> Scan {
        scan(self.source, self.names, self.index, self.line)
    }

    /// The state after the next item was read.
    pub open spec fn after(self) -> LexerState {
        LexerState { index: self.scan().index, line: self.scan().line, ..self }
    }

    /// How much is left to read: the count of the characters from the
    /// place of the lexer on.
    pub open spec fn rest(self) -> nat {
        if self.index <= self.source.len() {
            (self.source.len() - self.index) as nat
        } else {
            0
        }
    }
}

impl<'a> View for Lexer<'a> {
    type V = LexerState;

    closed spec fn view(&self) -> LexerState {
        LexerState {
            source: self.whole@,
            names: self.enums@,
            index: self.cursor.index as int,
            line: (self.cursor.breaks + 1) as nat,
        }
    }
}

impl<'a> Lexer<'a> {
    #[verifier::type_invariant]
    spec fn well_formed(self) -> bool {
        &&& self.cursor.index <= self.whole.len()
        &&& self.cursor.pos == byte_len(self.whole@.take(self.cursor.index as int))
        &&& self.cursor.breaks <= self.cursor.index
        &&& byte_len(self.whole@) <= usize::MAX
    }

    /// A lexer at the start of `source_code`, in line 1.
    pub fn new(enums: &'a EnumTable, source_code: &'a str) -> (lexer: Self)
        ensures
            lexer@ == (LexerState { source: source_code@, names: enums@, index: 0, line: 1 }),
    {
        let whole = chars_within(source_code);
        assert(whole@.take(0).len() == 0);
        Lexer { enums, whole, cursor: Cursor { index: 0, pos: 0, breaks: 0 } }
    }

    /// The enum values that the host has registered.
    pub fn enums(&self) -> (enums: &EnumTable)
        ensures
            enums@ == self@.names,
    {
        self.enums
    }

    /// Starts anew on another text, in line 1.
    pub fn set_input(&mut self, source_code: &'a str)
        ensures
            final(self)@ == (LexerState {
                source: source_code@,
                names: old(self)@.names,
                index: 0,
                line: 1,
            }),
    {
        let whole = chars_within(source_code);
        assert(whole@.take(0).len() == 0);
        *self = Lexer { enums: self.enums, whole, cursor: Cursor { index: 0, pos: 0, breaks: 0 } };
    }

    /// Where the run of characters of a class that starts at `from` ends,
    /// with the count of the bytes before that place.
    fn run(&self, from: Cursor, class: CharClass) -> (to: Cursor)
        requires
            from.index <= self.whole.len(),
            from.pos == byte_len(self.whole@.take(from.index as int)),
            from.breaks <= from.index,
            byte_len(self.whole@) <= usize::MAX,
        ensures
            to.index == run_end(self.whole@, from.index as int, class),
            to.index <= self.whole.len(),
            to.pos == byte_len(self.whole@.take(to.index as int)),
            to.breaks == if class == CharClass::Blank {
                from.breaks + line_breaks(self.whole@, from.index as int, to.index as int)
            } else {
                from.breaks as int
            },
            to.breaks - from.breaks <= to.index - from.index,
            from.index <= to.index,
    {
        let mut to = from;
        let n = self.whole.len();
        while to.index < n && class.accepts(self.whole[to.index])
            invariant
                n == self.whole.len(),
                from.index <= to.index <= n,
                to.pos == byte_len(self.whole@.take(to.index as int)),
                to.breaks == if class == CharClass::Blank {
                    from.breaks + line_breaks(self.whole@, from.index as int, to.index as int)
                } else {
                    from.breaks as int
                },
                to.breaks - from.breaks <= to.index - from.index,
                from.breaks <= from.index,
                byte_len(self.whole@) <= usize::MAX,
                run_end(self.whole@, from.index as int, class) == run_end(
                    self.whole@,
                    to.index as int,
                    class,
                ),
            decreases n - to.index,
        {
            proof {
                lemma_byte_len_take(self.whole@, to.index as int);
                lemma_byte_len_take(self.whole@, to.index + 1);
            }
            let c = self.whole[to.index];
            let w = char_width(c);
            let breaks = if class == CharClass::Blank && c == '\n' {
                to.breaks + 1
            } else {
                to.breaks
            };
            to = Cursor { index: to.index + 1, pos: to.pos + w, breaks };
        }
        to
    }

    /// The token of the given kind that starts at `from` and ends before
    /// `to`.
    fn token(&self, kind: TokenKind, from: Cursor, to: usize) -> (item: Option<
        Result<Token, CompilationError>,
    >)
        requires
            from.index <= to <= self.whole.len(),
            from.index < self.whole.len(),
            from.pos == byte_len(self.whole@.take(from.index as int)),
            from.breaks <= from.index,
        ensures
            lexed(item) == token_at(
                self.whole@,
                kind,
                from.index as int,
                to as int,
                (from.breaks + 1) as nat,
            ),
    {
        Some(
            Ok(
                Token {
                    origin: string_of(&self.whole, from.index, to),
                    offset: from.pos,
                    line: from.breaks + 1,
                    kind,
                },
            ),
        )
    }

    /// Whether the characters from `from` up to `to` are the given text.
    fn is_text(&self, from: usize, to: usize, text: &str) -> (same: bool)
        requires
            from <= to <= self.whole.len(),
        ensures
            same == (self.whole@.subrange(from as int, to as int) == text@),
    {
        let n = text.unicode_len();
        if n != to - from {
            return false;
        }
        let mut i: usize = 0;
        while i < n
            invariant
                0 <= i <= n,
                n == text@.len(),
                n == to - from,
                to <= self.whole.len(),
                forall|j: int| 0 <= j < i ==> self.whole@[from + j] == text@[j],
            decreases n - i,
        {
            if self.whole[from + i] != text.get_char(i) {
                assert(self.whole@.subrange(from as int, to as int)[i as int] != text@[i as int]);
                return false;
            }
            i = i + 1;
        }
        assert(self.whole@.subrange(from as int, to as int) =~= text@);
        true
    }

    /// The kind of the word from `from` up to `to`: a keyword, the name of
    /// an enum value, or an identifier.
    fn kind_of_word(&self, from: usize, to: usize, word: &String) -> (kind: TokenKind)
        requires
            from <= to <= self.whole.len(),
            word@ == self.whole@.subrange(from as int, to as int),
        ensures
            kind == word_kind(word@, self.enums@),
    {
        if self.is_text(from, to, "false") {
            TokenKind::False
        } else if self.is_text(from, to, "nil") {
            TokenKind::Nil
        } else if self.is_text(from, to, "print") {
            TokenKind::Print
        } else if self.is_text(from, to, "true") {
            TokenKind::True
        } else if self.enums.contains_key(word.as_str()) {
            TokenKind::Enum
        } else {
            TokenKind::Ident
        }
    }

    /// The next token of the script, or what is wrong with it; nothing at
    /// the end of the script.
    pub fn next(&mut self) -> (item: Option<Result<Token, CompilationError>>)
        ensures
            lexed(item) == old(self)@.scan().item,
            final(self)@ == old(self)@.after(),
            final(self)@.rest() <= old(self)@.rest(),
            item is Some ==> final(self)@.rest() < old(self)@.rest(),
    {
        proof {
            use_type_invariant(&*self);
        }
        let n = self.whole.len();
        loop
            invariant
                n == self.whole.len(),
                self.whole == old(self).whole,
                self.enums == old(self).enums,
                self.cursor.index <= n,
                old(self).cursor.index <= self.cursor.index,
                self.cursor.pos == byte_len(self.whole@.take(self.cursor.index as int)),
                self.cursor.breaks <= self.cursor.index,
                byte_len(self.whole@) <= usize::MAX,
                old(self)@.scan() == self@.scan(),
            decreases n - self.cursor.index,
        {
            let start = self.cursor;
            if start.index >= n {
                return None;
            }
            let c = self.whole[start.index];
            proof {
                lemma_byte_len_take(self.whole@, start.index as int);
                lemma_byte_len_take(self.whole@, start.index + 1);
            }
            let w = char_width(c);
            let behind = Cursor { index: start.index + 1, pos: start.pos + w, breaks: start.breaks };
            let single = if c == '(' {
                Some(TokenKind::LeftParen)
            } else if c == ')' {
                Some(TokenKind::RightParen)
            } else if c == ';' {
                Some(TokenKind::Semicolon)
            } else if c == '^' {
                Some(TokenKind::Caret)
            } else if c == '~' {
                Some(TokenKind::Tilde)
            } else if c == '?' {
                Some(TokenKind::QMark)
            } else {
                None
            };
            if let Some(kind) = single {
                let item = self.token(kind, start, behind.index);
                self.cursor = behind;
                return item;
            }
            let pair = if c == ':' {
                Some(('=', TokenKind::ColonEqual, TokenKind::Colon))
            } else if c == '=' {
                Some(('=', TokenKind::EqualEqual, TokenKind::Equal))
            } else if c == '!' {
                Some(('=', TokenKind::BangEqual, TokenKind::Bang))
            } else if c == '+' {
                Some(('=', TokenKind::PlusEqual, TokenKind::Plus))
            } else if c == '-' {
                Some(('=', TokenKind::MinusEqual, TokenKind::Minus))
            } else if c == '*' {
                Some(('=', TokenKind::StarEqual, TokenKind::Star))
            } else if c == '/' {
                Some(('=', TokenKind::SlashEqual, TokenKind::Slash))
            } else if c == '<' {
                Some(('=', TokenKind::LessEqual, TokenKind::Less))
            } else if c == '>' {
                Some(('=', TokenKind::GreaterEqual, TokenKind::Greater))
            } else if c == '&' {
                Some(('&', TokenKind::And, TokenKind::Ampersand))
            } else if c == '|' {
                Some(('|', TokenKind::Or, TokenKind::Pipe))
            } else {
                None
            };
            if let Some((second, both, alone)) = pair {
                let gap = self.run(behind, CharClass::Blank);
                if gap.index < n && self.whole[gap.index] == second {
                    proof {
                        lemma_byte_len_take(self.whole@, gap.index as int);
                        lemma_byte_len_take(self.whole@, gap.index + 1);
                    }
                    let item = self.token(both, start, gap.index + 1);
                    self.cursor = Cursor {
                        index: gap.index + 1,
                        pos: gap.pos + char_width(second),
                        breaks: gap.breaks,
                    };
                    return item;
                }
                let item = self.token(alone, start, behind.index);
                self.cursor = gap;
                return item;
            }
            if c == '\'' {
                let end = self.run(behind, CharClass::Text);
                if end.index < n {
                    proof {
                        lemma_byte_len_take(self.whole@, end.index as int);
                        lemma_byte_len_take(self.whole@, end.index + 1);
                    }
                    let item = Some(
                        Ok(
                            Token {
                                origin: string_of(&self.whole, behind.index, end.index),
                                offset: start.pos,
                                line: start.breaks + 1,
                                kind: TokenKind::String,
                            },
                        ),
                    );
                    self.cursor = Cursor {
                        index: end.index + 1,
                        pos: end.pos + char_width(self.whole[end.index]),
                        breaks: start.breaks,
                    };
                    return item;
                }
                let item = Some(
                    Err(
                        CompilationError::UnterminatedString {
                            str: string_of(&self.whole, start.index, n),
                            pos: start.breaks + 1,
                        },
                    ),
                );
                assert(self.whole@.subrange(start.index as int, n as int) == self.whole@.skip(
                    start.index as int,
                ));
                self.cursor = behind;
                return item;
            }
            if CharClass::Digit.accepts(c) {
                if behind.index < n && self.whole[behind.index] == 'x' {
                    proof {
                        lemma_byte_len_take(self.whole@, behind.index as int);
                        lemma_byte_len_take(self.whole@, behind.index + 1);
                    }
                    let digits = Cursor {
                        index: behind.index + 1,
                        pos: behind.pos + char_width('x'),
                        breaks: start.breaks,
                    };
                    let end = self.run(digits, CharClass::HexDigit);
                    let item = self.token(TokenKind::HexNumber, start, end.index);
                    self.cursor = end;
                    return item;
                }
                let dot = self.run(start, CharClass::Digit);
                proof {
                    lemma_run_end(self.whole@, start.index + 1, CharClass::Digit);
                    assert(dot.index > start.index);
                }
                if dot.index < n && self.whole[dot.index] == '.' {
                    proof {
                        lemma_byte_len_take(self.whole@, dot.index as int);
                        lemma_byte_len_take(self.whole@, dot.index + 1);
                    }
                    let fraction = Cursor {
                        index: dot.index + 1,
                        pos: dot.pos + char_width('.'),
                        breaks: start.breaks,
                    };
                    let end = self.run(fraction, CharClass::Digit);
                    if end.index == fraction.index && !(end.index < n && self.whole[end.index]
                        == '.') {
                        let item = self.token(TokenKind::IntNumber, start, dot.index);
                        self.cursor = dot;
                        return item;
                    }
                    let item = self.token(TokenKind::FloatNumber, start, end.index);
                    self.cursor = end;
                    return item;
                }
                let item = self.token(TokenKind::IntNumber, start, dot.index);
                self.cursor = dot;
                return item;
            }
            if ('a' <= c && c <= 'z') || ('A' <= c && c <= 'Z') || c == '_' || c == '@' {
                let end = self.run(behind, CharClass::Ident);
                let word = string_of(&self.whole, start.index, end.index);
                let kind = self.kind_of_word(start.index, end.index, &word);
                let item = Some(
                    Ok(Token { origin: word, offset: start.pos, line: start.breaks + 1, kind }),
                );
                self.cursor = end;
                return item;
            }
            if c == '\n' {
                self.cursor = Cursor {
                    index: behind.index,
                    pos: behind.pos,
                    breaks: start.breaks + 1,
                };
            } else if CharClass::Blank.accepts(c) {
                self.cursor = behind;
            } else {
                let item = Some(
                    Err(CompilationError::UnexpectedChar { c, pos: start.breaks + 1 }),
                );
                self.cursor = behind;
                return item;
            }
        }
    }
}

} // verus!
