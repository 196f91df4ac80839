//! What holds of the lexer's definition for every script.
use super::lexer::{
    is_blank, lemma_run_end, line_breaks, pair_token, run_end, scan, single_token, starts_ident,
    token_at, word_kind, CharClass, Scan,
};
use super::token::{Lexeme, TokenKind};
use crate::text::byte_len;
use vstd::prelude::*;

verus! {

/// A run ends where its characters end: at the first place from `from` on
/// whose character is not of the class, or at the end of the text.
pub proof fn law_run_end(source: Seq<char>, from: int, to: int, class: CharClass)
    requires
        0 <= from <= to <= source.len(),
        forall|i: int| from <= i < to ==> class.holds(#[trigger] source[i]),
        to < source.len() ==> !class.holds(source[to]),
    ensures
        run_end(source, from, class) == to,
    decreases to - from,
{
    if from < to {
        law_run_end(source, from + 1, to, class);
    }
}

/// The lexer goes forward: it never stands before the place where it
/// stood, it stands behind it where it has found a token or an error, and
/// it stays within the script.
pub proof fn law_progress(source: Seq<char>, names: Map<Seq<char>, i8>, index: int, line: nat)
    requires
        0 <= index,
    ensures
        index <= scan(source, names, index, line).index,
        scan(source, names, index, line).item is Some ==> index < scan(
            source,
            names,
            index,
            line,
        ).index,
        index <= source.len() ==> scan(source, names, index, line).index <= source.len(),
    decreases source.len() - index,
{
    if index < source.len() {
        let c = source[index];
        lemma_run_end(source, index + 1, CharClass::Blank);
        lemma_run_end(source, index + 1, CharClass::Text);
        lemma_run_end(source, index + 1, CharClass::Ident);
        lemma_run_end(source, index + 1, CharClass::Digit);
        lemma_run_end(source, index, CharClass::Digit);
        if index + 1 < source.len() {
            lemma_run_end(source, index + 2, CharClass::HexDigit);
        }
        let dot = run_end(source, index, CharClass::Digit);
        if dot < source.len() {
            lemma_run_end(source, dot + 1, CharClass::Digit);
        }
        if single_token(c) is None && pair_token(c) is None && c != '\'' && !CharClass::Digit.holds(
            c,
        ) && !starts_ident(c) && (c == '\n' || is_blank(c)) {
            law_progress(source, names, index + 1, line + 1);
            law_progress(source, names, index + 1, line);
        }
    }
}

/// A lexeme of one character is one token: a script that is such a
/// character, and no more, gives the token of the character, and then the
/// end of the input.
pub proof fn law_single_character(source: Seq<char>, names: Map<Seq<char>, i8>, line: nat)
    requires
        source.len() == 1,
        single_token(source[0]) is Some,
    ensures
        scan(source, names, 0, line) == (Scan {
            item: token_at(source, single_token(source[0])->0, 0, 1, line),
            index: 1,
            line,
        }),
        scan(source, names, 1, line).item is None,
{
}

/// An operator that could go on with a second character, and does not, is
/// one token: a script that is such a character, and no more, gives the
/// token of the character alone, and then the end of the input.
pub proof fn law_operator_alone(source: Seq<char>, names: Map<Seq<char>, i8>, line: nat)
    requires
        source.len() == 1,
        pair_token(source[0]) is Some,
    ensures
        scan(source, names, 0, line) == (Scan {
            item: token_at(source, pair_token(source[0])->0.alone, 0, 1, line),
            index: 1,
            line,
        }),
        scan(source, names, 1, line).item is None,
{
    assert(run_end(source, 1, CharClass::Blank) == 1);
}

/// An operator of two characters is one token, whatever white space stands
/// between the two: where the first character stands at `index`, the second
/// at `second`, and nothing but white space between them, the lexer gives
/// the token of both characters, made of all from the first to the second,
/// and goes on behind the second, in the line that the second stands in.
pub proof fn law_operator_with_gap(
    source: Seq<char>,
    names: Map<Seq<char>, i8>,
    index: int,
    second: int,
    line: nat,
)
    requires
        0 <= index < second < source.len(),
        pair_token(source[index]) is Some,
        source[second] == pair_token(source[index])->0.second,
        forall|i: int| index < i < second ==> is_blank(#[trigger] source[i]),
    ensures
        scan(source, names, index, line) == (Scan {
            item: token_at(source, pair_token(source[index])->0.both, index, second + 1, line),
            index: second + 1,
            line: line + line_breaks(source, index + 1, second),
        }),
{
    law_run_end(source, index + 1, second, CharClass::Blank);
}

/// A word is one token: a script that is a letter, an underscore or an
/// `@`, with letters, digits and underscores behind it, and no more, gives
/// one token, made of the whole word, and then the end of the input. The
/// token is a keyword where the word is one, else an enum value where the
/// host has registered the word, else an identifier.
pub proof fn law_word(source: Seq<char>, names: Map<Seq<char>, i8>, line: nat)
    requires
        source.len() >= 1,
        starts_ident(source[0]),
        forall|i: int| 1 <= i < source.len() ==> CharClass::Ident.holds(#[trigger] source[i]),
    ensures
        scan(source, names, 0, line) == (Scan {
            item: token_at(source, word_kind(source, names), 0, source.len() as int, line),
            index: source.len() as int,
            line,
        }),
        scan(source, names, source.len() as int, line).item is None,
{
    law_run_end(source, 1, source.len() as int, CharClass::Ident);
    assert(source.subrange(0, source.len() as int) == source);
}

/// The keywords are tokens of their own: a script that is `true`, `false`,
/// `nil` or `print`, and no more, gives the token of the keyword, and then
/// the end of the input.
pub proof fn law_keywords(names: Map<Seq<char>, i8>, line: nat)
    ensures
        scan("true"@, names, 0, line).item == token_at("true"@, TokenKind::True, 0, 4, line),
        scan("true"@, names, 4, line).item is None,
        scan("false"@, names, 0, line).item == token_at("false"@, TokenKind::False, 0, 5, line),
        scan("false"@, names, 5, line).item is None,
        scan("nil"@, names, 0, line).item == token_at("nil"@, TokenKind::Nil, 0, 3, line),
        scan("nil"@, names, 3, line).item is None,
        scan("print"@, names, 0, line).item == token_at("print"@, TokenKind::Print, 0, 5, line),
        scan("print"@, names, 5, line).item is None,
{
    reveal_strlit("true");
    reveal_strlit("false");
    reveal_strlit("nil");
    reveal_strlit("print");
    law_word("true"@, names, line);
    law_word("false"@, names, line);
    law_word("nil"@, names, line);
    law_word("print"@, names, line);
    assert("false"@ != "nil"@);
    assert("false"@ != "print"@);
    assert("false"@ != "true"@);
    assert("nil"@ != "print"@);
    assert("nil"@ != "true"@);
    assert("print"@ != "true"@);
}

/// A decimal integer is one token: a script that is made of digits, and no
/// more, gives one integer token, made of all of them, and then the end of
/// the input.
pub proof fn law_integer(source: Seq<char>, names: Map<Seq<char>, i8>, line: nat)
    requires
        source.len() >= 1,
        forall|i: int| 0 <= i < source.len() ==> CharClass::Digit.holds(#[trigger] source[i]),
    ensures
        scan(source, names, 0, line) == (Scan {
            item: token_at(source, TokenKind::IntNumber, 0, source.len() as int, line),
            index: source.len() as int,
            line,
        }),
        scan(source, names, source.len() as int, line).item is None,
{
    law_run_end(source, 0, source.len() as int, CharClass::Digit);
    assert(CharClass::Digit.holds(source[0]));
    if source.len() > 1 {
        assert(CharClass::Digit.holds(source[1]));
    }
}

/// A hexadecimal number is one token: a script that is made of a digit, an
/// `x` and hexadecimal digits, and no more, gives one hexadecimal token,
/// made of all of them, and then the end of the input.
pub proof fn law_hexadecimal(source: Seq<char>, names: Map<Seq<char>, i8>, line: nat)
    requires
        source.len() >= 2,
        CharClass::Digit.holds(source[0]),
        source[1] == 'x',
        forall|i: int| 2 <= i < source.len() ==> CharClass::HexDigit.holds(#[trigger] source[i]),
    ensures
        scan(source, names, 0, line) == (Scan {
            item: token_at(source, TokenKind::HexNumber, 0, source.len() as int, line),
            index: source.len() as int,
            line,
        }),
        scan(source, names, source.len() as int, line).item is None,
{
    law_run_end(source, 2, source.len() as int, CharClass::HexDigit);
}

/// A decimal number with a dot is one token: a script that is made of
/// digits, a dot at `dot` and digits behind it, at least one on each side,
/// and no more, gives one floating-point token, made of all of them, and
/// then the end of the input.
pub proof fn law_float(source: Seq<char>, names: Map<Seq<char>, i8>, dot: int, line: nat)
    requires
        1 <= dot < source.len() - 1,
        source[dot] == '.',
        forall|i: int|
            0 <= i < source.len() && i != dot ==> CharClass::Digit.holds(#[trigger] source[i]),
    ensures
        scan(source, names, 0, line) == (Scan {
            item: token_at(source, TokenKind::FloatNumber, 0, source.len() as int, line),
            index: source.len() as int,
            line,
        }),
        scan(source, names, source.len() as int, line).item is None,
{
    law_run_end(source, 0, dot, CharClass::Digit);
    law_run_end(source, dot + 1, source.len() as int, CharClass::Digit);
    assert(CharClass::Digit.holds(source[0]));
    if dot > 1 {
        assert(CharClass::Digit.holds(source[1]));
    }
}

/// A string is one token: a script that is made of a single quote,
/// characters that are no single quotes, and a single quote, and no more,
/// gives one string token, made of what stands between the quotes, and
/// then the end of the input.
pub proof fn law_string(source: Seq<char>, names: Map<Seq<char>, i8>, line: nat)
    requires
        source.len() >= 2,
        source[0] == '\'',
        source[source.len() - 1] == '\'',
        forall|i: int| 1 <= i < source.len() - 1 ==> #[trigger] source[i] != '\'',
    ensures
        scan(source, names, 0, line) == (Scan {
            item: Some(
                Ok(
                    Lexeme {
                        origin: source.subrange(1, source.len() - 1),
                        offset: byte_len(source.take(0)),
                        line,
                        kind: TokenKind::String,
                    },
                ),
            ),
            index: source.len() as int,
            line,
        }),
        scan(source, names, source.len() as int, line).item is None,
{
    law_run_end(source, 1, source.len() - 1, CharClass::Text);
}

} // verus!
