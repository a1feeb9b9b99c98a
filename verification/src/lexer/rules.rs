use crate::ast::grammar::ends_with_eof;
use crate::error::PulseErrorView;
use crate::lexer::span::TextSpanView;
use crate::lexer::token::{TokenKind, TokenView};
use vstd::prelude::*;

verus! {

/// A set of characters that a run of the source text is made of.
#[derive(Clone, Copy, Debug, PartialEq, Eq, Structural)]
pub enum CharClass {
    /// Spaces, tabs and line ends.
    Blank,
    /// The ten digits.
    Digit,
    /// Letters, digits and the underscore.
    Word,
    /// Everything but the line end.
    InLine,
    /// Everything but the double quote.
    InString,
}

pub open spec fn is_blank(c: char) -> bool {
    c == ' ' || c == '\t' || c == '\n' || c == '\r'
}

pub open spec fn is_digit(c: char) -> bool {
    '0' <= c <= '9'
}

/// A letter of the Latin alphabet or the underscore: what a name or a
/// keyword starts with.
pub open spec fn is_letter(c: char) -> bool {
    'a' <= c <= 'z' || 'A' <= c <= 'Z' || c == '_'
}

impl CharClass {
    pub open spec fn holds(self, c: char) -> bool {
        match self {
            CharClass::Blank => is_blank(c),
            CharClass::Digit => is_digit(c),
            CharClass::Word => is_letter(c) || is_digit(c),
            CharClass::InLine => c != '\n',
            CharClass::InString => c != '"',
        }
    }

    pub fn accepts(&self, c: char) -> (yes: bool)
        ensures
            yes == self.holds(c),
    {
        match self {
            CharClass::Blank => c == ' ' || c == '\t' || c == '\n' || c == '\r',
            CharClass::Digit => c >= '0' && c <= '9',
            CharClass::Word => (c >= 'a' && c <= 'z') || (c >= 'A' && c <= 'Z') || c == '_' || (c
                >= '0' && c <= '9'),
            CharClass::InLine => c != '\n',
            CharClass::InString => c != '"',
        }
    }
}

/// Where the longest run of characters of `class` that starts at `pos`
/// ends.
pub open spec fn run_end(source: Seq<char>, pos: int, class: CharClass) -> int
    decreases source.len() - pos,
{
    if 0 <= pos < source.len() && class.holds(source[pos]) {
        run_end(source, pos + 1, class)
    } else {
        pos
    }
}

/// A run ends where it starts or after that, and inside the text.
pub proof fn lemma_run_end(source: Seq<char>, pos: int, class: CharClass)
    ensures
        pos <= run_end(source, pos, class),
        pos <= source.len() ==> run_end(source, pos, class) <= source.len(),
    decreases source.len() - pos,
{
    if 0 <= pos < source.len() && class.holds(source[pos]) {
        lemma_run_end(source, pos + 1, class);
    }
}

/// Whether a comment starts at `pos`: two slashes.
pub open spec fn starts_comment(source: Seq<char>, pos: int) -> bool {
    0 <= pos && pos + 1 < source.len() && source[pos] == '/' && source[pos + 1] == '/'
}

/// Where the next token starts: after the blanks from `pos` on and the
/// comments among them, each of which runs to the end of its line.
pub open spec fn after_blanks(source: Seq<char>, pos: int) -> int
    decreases source.len() - pos,
{
    let stop = run_end(source, pos, CharClass::Blank);
    if starts_comment(source, stop) {
        proof {
            lemma_run_end(source, pos, CharClass::Blank);
            lemma_run_end(source, stop + 2, CharClass::InLine);
        }
        after_blanks(source, run_end(source, stop + 2, CharClass::InLine))
    } else {
        stop
    }
}

/// The next token starts where the search for it starts or after that, and
/// inside the text.
pub proof fn lemma_after_blanks(source: Seq<char>, pos: int)
    ensures
        pos <= after_blanks(source, pos),
        pos <= source.len() ==> after_blanks(source, pos) <= source.len(),
    decreases source.len() - pos,
{
    let stop = run_end(source, pos, CharClass::Blank);
    lemma_run_end(source, pos, CharClass::Blank);
    if starts_comment(source, stop) {
        lemma_run_end(source, stop + 2, CharClass::InLine);
        lemma_after_blanks(source, run_end(source, stop + 2, CharClass::InLine));
    }
}

/// The keyword that a word is, if it is one.
pub open spec fn keyword(word: Seq<char>) -> Option<TokenKind> {
    if word == "fn"@ {
        Some(TokenKind::Fn)
    } else if word == "let"@ {
        Some(TokenKind::Let)
    } else if word == "if"@ {
        Some(TokenKind::If)
    } else if word == "else"@ {
        Some(TokenKind::Else)
    } else if word == "while"@ {
        Some(TokenKind::While)
    } else if word == "for"@ {
        Some(TokenKind::For)
    } else if word == "in"@ {
        Some(TokenKind::In)
    } else if word == "return"@ {
        Some(TokenKind::Return)
    } else if word == "break"@ {
        Some(TokenKind::Break)
    } else if word == "continue"@ {
        Some(TokenKind::Continue)
    } else if word == "use"@ {
        Some(TokenKind::Use)
    } else if word == "export"@ {
        Some(TokenKind::Export)
    } else if word == "true"@ {
        Some(TokenKind::True)
    } else if word == "false"@ {
        Some(TokenKind::False)
    } else if word == "null"@ {
        Some(TokenKind::Null)
    } else {
        None
    }
}

/// The token that two characters spell together, if they spell one.
pub open spec fn double_symbol(first: char, second: char) -> Option<TokenKind> {
    if first == '-' && second == '>' {
        Some(TokenKind::Arrow)
    } else if first == '*' && second == '*' {
        Some(TokenKind::DoubleAsterisk)
    } else if first == '>' && second == '=' {
        Some(TokenKind::GreaterThanEquals)
    } else if first == '<' && second == '=' {
        Some(TokenKind::LessThanEquals)
    } else if first == '=' && second == '=' {
        Some(TokenKind::EqualsEquals)
    } else if first == '!' && second == '=' {
        Some(TokenKind::BangEquals)
    } else if first == '&' && second == '&' {
        Some(TokenKind::And)
    } else if first == '|' && second == '|' {
        Some(TokenKind::Or)
    } else if first == '+' && second == '+' {
        Some(TokenKind::Increment)
    } else if first == '-' && second == '-' {
        Some(TokenKind::Decrement)
    } else if first == '-' && second == '=' {
        Some(TokenKind::MinusEquals)
    } else if first == '+' && second == '=' {
        Some(TokenKind::PlusEquals)
    } else {
        None
    }
}

/// The token that one character spells, if it spells one.
pub open spec fn single_symbol(symbol: char) -> Option<TokenKind> {
    if symbol == '(' {
        Some(TokenKind::LeftParen)
    } else if symbol == ')' {
        Some(TokenKind::RightParen)
    } else if symbol == '{' {
        Some(TokenKind::LeftBrace)
    } else if symbol == '}' {
        Some(TokenKind::RightBrace)
    } else if symbol == '[' {
        Some(TokenKind::LeftBracket)
    } else if symbol == ']' {
        Some(TokenKind::RightBracket)
    } else if symbol == ',' {
        Some(TokenKind::Comma)
    } else if symbol == '.' {
        Some(TokenKind::Dot)
    } else if symbol == ':' {
        Some(TokenKind::Colon)
    } else if symbol == ';' {
        Some(TokenKind::Semicolon)
    } else if symbol == '+' {
        Some(TokenKind::Plus)
    } else if symbol == '-' {
        Some(TokenKind::Minus)
    } else if symbol == '*' {
        Some(TokenKind::Asterisk)
    } else if symbol == '/' {
        Some(TokenKind::Slash)
    } else if symbol == '=' {
        Some(TokenKind::Equals)
    } else if symbol == '&' {
        Some(TokenKind::Ampersand)
    } else if symbol == '|' {
        Some(TokenKind::Pipe)
    } else if symbol == '^' {
        Some(TokenKind::Caret)
    } else if symbol == '%' {
        Some(TokenKind::Percent)
    } else if symbol == '~' {
        Some(TokenKind::Tilde)
    } else if symbol == '>' {
        Some(TokenKind::GreaterThan)
    } else if symbol == '<' {
        Some(TokenKind::LessThan)
    } else if symbol == '!' {
        Some(TokenKind::Bang)
    } else {
        None
    }
}

/// The span of the text from `from` up to `to`.
pub open spec fn piece(source: Seq<char>, from: int, to: int) -> TextSpanView {
    TextSpanView { start: from as usize, end: to as usize, literal: source.subrange(from, to) }
}

/// The error for text from `from` up to `to` that is no token.
pub open spec fn invalid_token(source: Seq<char>, from: int, to: int) -> PulseErrorView {
    PulseErrorView::InvalidToken(source.subrange(from, to), piece(source, from, to))
}

/// The kind of the token that starts at `pos` and the position after it,
/// or the error for the text there. A token is as long as it can be:
///
/// - a word: a letter or an underscore and the letters, digits and
///   underscores after it; a keyword if it is one, and else an identifier;
/// - a number: digits, an integer; or digits, a dot and digits, a rational;
/// - a string: from a double quote to the next one, which has to come;
/// - one of the symbols of two characters, or else one of those of one.
pub open spec fn lexeme_at(source: Seq<char>, pos: int) -> Result<(TokenKind, int), PulseErrorView> {
    let first = source[pos];
    if is_letter(first) {
        let end = run_end(source, pos, CharClass::Word);
        Ok(
            (
                match keyword(source.subrange(pos, end)) {
                    Some(kind) => kind,
                    None => TokenKind::Identifier,
                },
                end,
            ),
        )
    } else if is_digit(first) {
        let whole = run_end(source, pos, CharClass::Digit);
        if whole + 1 < source.len() && source[whole] == '.' && is_digit(source[whole + 1]) {
            Ok((TokenKind::Rational, run_end(source, whole + 1, CharClass::Digit)))
        } else {
            Ok((TokenKind::Integer, whole))
        }
    } else if first == '"' {
        let close = run_end(source, pos + 1, CharClass::InString);
        if close < source.len() {
            Ok((TokenKind::String, close + 1))
        } else {
            Err(invalid_token(source, pos, source.len() as int))
        }
    } else if pos + 1 < source.len() && double_symbol(first, source[pos + 1]) is Some {
        Ok((double_symbol(first, source[pos + 1])->Some_0, pos + 2))
    } else if single_symbol(first) is Some {
        Ok((single_symbol(first)->Some_0, pos + 1))
    } else {
        Err(invalid_token(source, pos, pos + 1))
    }
}

/// A token holds at least one character and ends inside the text.
pub proof fn lemma_lexeme_advances(source: Seq<char>, pos: int)
    requires
        0 <= pos < source.len(),
    ensures
        lexeme_at(source, pos) matches Ok((_, end)) ==> pos < end <= source.len(),
{
    lemma_run_end(source, pos + 1, CharClass::Word);
    lemma_run_end(source, pos + 1, CharClass::Digit);
    lemma_run_end(source, pos + 1, CharClass::InString);
    let whole = run_end(source, pos, CharClass::Digit);
    lemma_run_end(source, whole + 2, CharClass::Digit);
}

/// The token that ends every token sequence: it stands at the end of the
/// text and holds none of it.
pub open spec fn end_of_file(source: Seq<char>) -> TokenView {
    TokenView {
        kind: TokenKind::EOF,
        span: piece(source, source.len() as int, source.len() as int),
    }
}

/// The tokens of the text from `pos` on, appended to those already read,
/// with the end-of-file token after them; or the error for the first
/// piece of text that is no token. Blanks and comments separate tokens and
/// are none themselves.
pub open spec fn tokens_from(source: Seq<char>, pos: int, read: Seq<TokenView>) -> Result<
    Seq<TokenView>,
    PulseErrorView,
>
    decreases source.len() - pos,
{
    let start = after_blanks(source, pos);
    if 0 <= pos <= start < source.len() {
        match lexeme_at(source, start) {
            Err(error) => Err(error),
            Ok((kind, end)) => {
                proof {
                    lemma_lexeme_advances(source, start);
                }
                tokens_from(
                    source,
                    end,
                    read.push(TokenView { kind, span: piece(source, start, end) }),
                )
            },
        }
    } else {
        Ok(read.push(end_of_file(source)))
    }
}

/// The tokens of a source text.
pub open spec fn tokens_of(source: Seq<char>) -> Result<Seq<TokenView>, PulseErrorView> {
    tokens_from(source, 0, Seq::empty())
}

/// The tokens lie in the text in their order, none over another, none
/// beyond `upto`, and each holds the text between its start and its end.
pub open spec fn tokens_fit(source: Seq<char>, tokens: Seq<TokenView>, upto: int) -> bool {
    &&& forall|i: int|
        0 <= i < tokens.len() ==> {
            &&& 0 <= (#[trigger] tokens[i]).span.start <= tokens[i].span.end <= upto
            &&& tokens[i].span == piece(
                source,
                tokens[i].span.start as int,
                tokens[i].span.end as int,
            )
        }
    &&& forall|i: int, j: int|
        0 <= i < j < tokens.len() ==> (#[trigger] tokens[i]).span.end <= (
        #[trigger] tokens[j]).span.start
}

/// What tokenizing hands on to parsing. A text that has tokens has them in
/// its own order: each token holds the text between its start and its end,
/// no token lies over another, and the last one is the end-of-file token,
/// which the parser asks for.
pub proof fn lemma_tokens_fit(source: Seq<char>, pos: int, read: Seq<TokenView>)
    requires
        source.len() <= usize::MAX,
        0 <= pos <= source.len(),
        tokens_fit(source, read, pos),
    ensures
        tokens_from(source, pos, read) matches Ok(tokens) ==> {
            &&& ends_with_eof(tokens)
            &&& tokens_fit(source, tokens, source.len() as int)
            &&& read.is_prefix_of(tokens)
        },
    decreases source.len() - pos,
{
    let start = after_blanks(source, pos);
    lemma_after_blanks(source, pos);
    if start < source.len() {
        if let Ok((kind, end)) = lexeme_at(source, start) {
            lemma_lexeme_advances(source, start);
            let token = TokenView { kind, span: piece(source, start, end) };
            let next = read.push(token);
            assert(tokens_fit(source, next, end)) by {
                assert forall|i: int| 0 <= i < next.len() implies {
                    &&& 0 <= (#[trigger] next[i]).span.start <= next[i].span.end <= end
                    &&& next[i].span == piece(
                        source,
                        next[i].span.start as int,
                        next[i].span.end as int,
                    )
                } by {}
                assert forall|i: int, j: int| 0 <= i < j < next.len() implies (
                #[trigger] next[i]).span.end <= (#[trigger] next[j]).span.start by {}
            }
            lemma_tokens_fit(source, end, next);
        }
    } else {
        let tokens = read.push(end_of_file(source));
        assert(tokens_fit(source, tokens, source.len() as int)) by {
            assert forall|i: int| 0 <= i < tokens.len() implies {
                &&& 0 <= (#[trigger] tokens[i]).span.start <= tokens[i].span.end <= source.len()
                &&& tokens[i].span == piece(
                    source,
                    tokens[i].span.start as int,
                    tokens[i].span.end as int,
                )
            } by {}
            assert forall|i: int, j: int| 0 <= i < j < tokens.len() implies (
            #[trigger] tokens[i]).span.end <= (#[trigger] tokens[j]).span.start by {}
        }
    }
}

} // verus!
