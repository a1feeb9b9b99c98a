use crate::error::PulseError;
use crate::lexer::rules::{
    after_blanks, double_symbol, keyword, lemma_after_blanks, lemma_lexeme_advances,
    lemma_run_end, lexeme_at, piece, run_end, single_symbol, tokens_from, tokens_of, CharClass,
};
use crate::lexer::span::TextSpan;
use crate::lexer::token::{tokens_view, Token, TokenKind, TokenView};
use vstd::prelude::*;
use vstd::string::StrSliceExecFns;

verus! {

/// The keyword that a word is, if it is one.
pub fn keyword_of(word: &str) -> (kind: Option<TokenKind>)
    ensures
        kind == keyword(word@),
{
    if word.eq("fn") {
        Some(TokenKind::Fn)
    } else if word.eq("let") {
        Some(TokenKind::Let)
    } else if word.eq("if") {
        Some(TokenKind::If)
    } else if word.eq("else") {
        Some(TokenKind::Else)
    } else if word.eq("while") {
        Some(TokenKind::While)
    } else if word.eq("for") {
        Some(TokenKind::For)
    } else if word.eq("in") {
        Some(TokenKind::In)
    } else if word.eq("return") {
        Some(TokenKind::Return)
    } else if word.eq("break") {
        Some(TokenKind::Break)
    } else if word.eq("continue") {
        Some(TokenKind::Continue)
    } else if word.eq("use") {
        Some(TokenKind::Use)
    } else if word.eq("export") {
        Some(TokenKind::Export)
    } else if word.eq("true") {
        Some(TokenKind::True)
    } else if word.eq("false") {
        Some(TokenKind::False)
    } else if word.eq("null") {
        Some(TokenKind::Null)
    } else {
        None
    }
}

/// The token that two characters spell together, if they spell one.
pub fn double_symbol_of(first: char, second: char) -> (kind: Option<TokenKind>)
    ensures
        kind == double_symbol(first, second),
{
    if first == '-' && second == '>' {
        Some(TokenKind::Arrow)
    } else if first == '*' && second == '*' {
        Some(TokenKind::DoubleAsterisk)
    } else if first == '>' && second == '=' {
        Some(TokenKind::GreaterThanEquals)
    } else if first == '<' && second == '=' {
        Some(TokenKind::LessThanEquals)
    } else if first == '=' && second == '=' {
        Some(TokenKind::EqualsEquals)
    } else if first == '!' && second == '=' {
        Some(TokenKind::BangEquals)
    } else if first == '&' && second == '&' {
        Some(TokenKind::And)
    } else if first == '|' && second == '|' {
        Some(TokenKind::Or)
    } else if first == '+' && second == '+' {
        Some(TokenKind::Increment)
    } else if first == '-' && second == '-' {
        Some(TokenKind::Decrement)
    } else if first == '-' && second == '=' {
        Some(TokenKind::MinusEquals)
    } else if first == '+' && second == '=' {
        Some(TokenKind::PlusEquals)
    } else {
        None
    }
}

/// The token that one character spells, if it spells one.
pub fn single_symbol_of(symbol: char) -> (kind: Option<TokenKind>)
    ensures
        kind == single_symbol(symbol),
{
    if symbol == '(' {
        Some(TokenKind::LeftParen)
    } else if symbol == ')' {
        Some(TokenKind::RightParen)
    } else if symbol == '{' {
        Some(TokenKind::LeftBrace)
    } else if symbol == '}' {
        Some(TokenKind::RightBrace)
    } else if symbol == '[' {
        Some(TokenKind::LeftBracket)
    } else if symbol == ']' {
        Some(TokenKind::RightBracket)
    } else if symbol == ',' {
        Some(TokenKind::Comma)
    } else if symbol == '.' {
        Some(TokenKind::Dot)
    } else if symbol == ':' {
        Some(TokenKind::Colon)
    } else if symbol == ';' {
        Some(TokenKind::Semicolon)
    } else if symbol == '+' {
        Some(TokenKind::Plus)
    } else if symbol == '-' {
        Some(TokenKind::Minus)
    } else if symbol == '*' {
        Some(TokenKind::Asterisk)
    } else if symbol == '/' {
        Some(TokenKind::Slash)
    } else if symbol == '=' {
        Some(TokenKind::Equals)
    } else if symbol == '&' {
        Some(TokenKind::Ampersand)
    } else if symbol == '|' {
        Some(TokenKind::Pipe)
    } else if symbol == '^' {
        Some(TokenKind::Caret)
    } else if symbol == '%' {
        Some(TokenKind::Percent)
    } else if symbol == '~' {
        Some(TokenKind::Tilde)
    } else if symbol == '>' {
        Some(TokenKind::GreaterThan)
    } else if symbol == '<' {
        Some(TokenKind::LessThan)
    } else if symbol == '!' {
        Some(TokenKind::Bang)
    } else {
        None
    }
}

/// A source text ready to be cut into tokens.
pub struct Lexer {
    source: String,
    chars: Vec<char>,
}

impl View for Lexer {
    type V = Seq<char>;

    closed spec fn view(&self) -> Seq<char> {
        self.source@
    }
}

impl Lexer {
    /// The characters held are those of the text.
    #[verifier::type_invariant]
    spec fn in_step(self) -> bool {
        self.chars@ == self.source@
    }

    pub fn from_source(source: String) -> (lexer: Self)
        ensures
            lexer@ == source@,
    {
        let mut chars: Vec<char> = Vec::new();
        for c in it: source.as_str().chars()
            invariant
                chars@ == it.seq().take(it.index() as int),
                it.seq() == source@,
        {
            chars.push(c);
        }
        assert(chars@ =~= source@);
        Lexer { source, chars }
    }

    /// The number of characters of the text.
    pub fn len(&self) -> (len: usize)
        ensures
            len == self@.len(),
    {
        proof {
            use_type_invariant(self);
        }
        self.chars.len()
    }

    /// Where the longest run of characters of `class` that starts at
    /// `from` ends.
    pub fn run(&self, from: usize, class: CharClass) -> (end: usize)
        requires
            from <= self@.len(),
        ensures
            end == run_end(self@, from as int, class),
    {
        proof {
            use_type_invariant(self);
        }
        let mut end = from;
        while end < self.chars.len() && class.accepts(self.chars[end])
            invariant
                from <= end <= self.chars.len(),
                self.chars@ == self@,
                run_end(self@, from as int, class) == run_end(self@, end as int, class),
            decreases self.chars.len() - end,
        {
            end += 1;
        }
        end
    }

    /// Where the next token starts: after the blanks and the comments that
    /// stand at `from`.
    pub fn skip_blanks(&self, from: usize) -> (start: usize)
        requires
            from <= self@.len(),
        ensures
            start == after_blanks(self@, from as int),
    {
        proof {
            use_type_invariant(self);
        }
        let mut at = from;
        loop
            invariant
                from <= at <= self.chars.len(),
                self.chars@ == self@,
                after_blanks(self@, from as int) == after_blanks(self@, at as int),
            decreases self.chars.len() - at,
        {
            let stop = self.run(at, CharClass::Blank);
            proof {
                lemma_run_end(self@, at as int, CharClass::Blank);
            }
            if self.chars.len() - stop > 1 && self.chars[stop] == '/' && self.chars[stop + 1]
                == '/' {
                let line_end = self.run(stop + 2, CharClass::InLine);
                proof {
                    lemma_run_end(self@, stop + 2, CharClass::InLine);
                }
                at = line_end;
            } else {
                return stop;
            }
        }
    }

    /// The span of the text from `from` up to `to`.
    pub fn piece(&self, from: usize, to: usize) -> (span: TextSpan)
        requires
            from <= to <= self@.len(),
        ensures
            span@ == piece(self@, from as int, to as int),
    {
        TextSpan::new(from, to, self.source.as_str().substring_char(from, to).to_owned())
    }

    /// The kind of the token that starts at `start` and the position after
    /// it, or the error for the text there.
    pub fn lexeme(&self, start: usize) -> (res: Result<(TokenKind, usize), PulseError>)
        requires
            start < self@.len(),
        ensures
            match res {
                Ok((kind, end)) => lexeme_at(self@, start as int) matches Ok(lexeme) && lexeme
                    == (kind, end as int),
                Err(error) => lexeme_at(self@, start as int) matches Err(failure) && failure
                    == error@,
            },
    {
        proof {
            use_type_invariant(self);
            lemma_lexeme_advances(self@, start as int);
        }
        let len = self.chars.len();
        let first = self.chars[start];
        if (first >= 'a' && first <= 'z') || (first >= 'A' && first <= 'Z') || first == '_' {
            let end = self.run(start, CharClass::Word);
            let word = self.piece(start, end);
            match keyword_of(word.literal.as_str()) {
                Some(kind) => Ok((kind, end)),
                None => Ok((TokenKind::Identifier, end)),
            }
        } else if first >= '0' && first <= '9' {
            let whole = self.run(start, CharClass::Digit);
            proof {
                lemma_run_end(self@, start as int, CharClass::Digit);
            }
            if len - whole > 1 && self.chars[whole] == '.' && CharClass::Digit.accepts(
                self.chars[whole + 1],
            ) {
                Ok((TokenKind::Rational, self.run(whole + 1, CharClass::Digit)))
            } else {
                Ok((TokenKind::Integer, whole))
            }
        } else if first == '"' {
            let close = self.run(start + 1, CharClass::InString);
            proof {
                lemma_run_end(self@, start + 1, CharClass::InString);
            }
            if close < len {
                Ok((TokenKind::String, close + 1))
            } else {
                let span = self.piece(start, len);
                Err(PulseError::InvalidToken(span.literal.clone(), span))
            }
        } else {
            let double = if len - start > 1 {
                double_symbol_of(first, self.chars[start + 1])
            } else {
                None
            };
            match double {
                Some(kind) => Ok((kind, start + 2)),
                None => match single_symbol_of(first) {
                    Some(kind) => Ok((kind, start + 1)),
                    None => {
                        let span = self.piece(start, start + 1);
                        Err(PulseError::InvalidToken(span.literal.clone(), span))
                    },
                },
            }
        }
    }

    /// Cuts the text into its tokens and closes them with the end-of-file
    /// token, or fails on the first piece of text that is no token.
    pub fn lex(&self) -> (res: Result<Vec<Token>, PulseError>)
        ensures
            match res {
                Ok(tokens) => tokens_of(self@) matches Ok(cut) && cut == tokens_view(tokens),
                Err(error) => tokens_of(self@) matches Err(failure) && failure == error@,
            },
    {
        let len = self.len();
        let mut tokens: Vec<Token> = Vec::new();
        let mut at: usize = 0;
        assert(tokens_view(tokens) =~= Seq::<TokenView>::empty());
        loop
            invariant
                at <= len,
                len == self@.len(),
                tokens_of(self@) == tokens_from(self@, at as int, tokens_view(tokens)),
            decreases len - at,
        {
            let ghost read = tokens_view(tokens);
            let start = self.skip_blanks(at);
            proof {
                lemma_after_blanks(self@, at as int);
            }
            if start >= len {
                tokens.push(Token::new(TokenKind::EOF, self.piece(len, len)));
                return Ok(tokens);
            }
            let (kind, end) = self.lexeme(start)?;
            proof {
                lemma_lexeme_advances(self@, start as int);
            }
            tokens.push(Token::new(kind, self.piece(start, end)));
            assert(tokens_view(tokens) =~= read.push(
                TokenView { kind, span: piece(self@, start as int, end as int) },
            ));
            at = end;
        }
    }
}

} // verus!
