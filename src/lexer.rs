//! The tokenizer for the annotation syntax. Compliance-prefix comments
//! become tokens of their own; other comments are skipped; invalid input
//! becomes an `Invalid` token, never an error.

use vstd::prelude::*;
use crate::models::prefix_standard;
use crate::text::{
    alphabetic, alphanumeric, chars_of, is_alphabetic, is_numeric, is_white_space, numeric,
    same_text, segments, split_on, text_between, texts, trim_of, trimmed, white_space,
};

verus! {

/// The tokens of the annotation syntax.
#[derive(Debug, Clone, PartialEq)]
pub enum Token {
    /// A comment of the form `<PREFIX>: <description>` with a known prefix.
    CompliancePrefix(String),
    Identifier(String),
    /// A string literal's content, without the quotes.
    String(String),
    /// A numeric literal's text.
    Number(String),
    LeftParen,
    RightParen,
    LeftBrace,
    RightBrace,
    Semicolon,
    Comma,
    Dot,
    Colon,
    Equals,
    /// `function` or `fn`.
    Function,
    Let,
    If,
    Else,
    Return,
    Newline,
    Eof,
    /// A character that starts no token.
    Invalid(String),
}

/// A token with its text as characters.
pub enum TokenView {
    CompliancePrefix(Seq<char>),
    Identifier(Seq<char>),
    String(Seq<char>),
    Number(Seq<char>),
    LeftParen,
    RightParen,
    LeftBrace,
    RightBrace,
    Semicolon,
    Comma,
    Dot,
    Colon,
    Equals,
    Function,
    Let,
    If,
    Else,
    Return,
    Newline,
    Eof,
    Invalid(Seq<char>),
}

impl View for Token {
    type V = TokenView;

    open spec fn view(&self) -> TokenView {
        match self {
            Token::CompliancePrefix(s) => TokenView::CompliancePrefix(s@),
            Token::Identifier(s) => TokenView::Identifier(s@),
            Token::String(s) => TokenView::String(s@),
            Token::Number(s) => TokenView::Number(s@),
            Token::LeftParen => TokenView::LeftParen,
            Token::RightParen => TokenView::RightParen,
            Token::LeftBrace => TokenView::LeftBrace,
            Token::RightBrace => TokenView::RightBrace,
            Token::Semicolon => TokenView::Semicolon,
            Token::Comma => TokenView::Comma,
            Token::Dot => TokenView::Dot,
            Token::Colon => TokenView::Colon,
            Token::Equals => TokenView::Equals,
            Token::Function => TokenView::Function,
            Token::Let => TokenView::Let,
            Token::If => TokenView::If,
            Token::Else => TokenView::Else,
            Token::Return => TokenView::Return,
            Token::Newline => TokenView::Newline,
            Token::Eof => TokenView::Eof,
            Token::Invalid(s) => TokenView::Invalid(s@),
        }
    }
}

/// White space other than a newline.
pub open spec fn blank(c: char) -> bool {
    white_space(c) && c != '\n'
}

/// A character that continues an identifier.
pub open spec fn ident_char(c: char) -> bool {
    alphanumeric(c) || c == '_' || c == '.'
}

/// A character that continues a number.
pub open spec fn number_char(c: char) -> bool {
    numeric(c) || c == '.'
}

/// The first index from `pos` on whose character does not satisfy `p`, or
/// the length of `cs`.
pub open spec fn run_end(cs: Seq<char>, pos: int, p: spec_fn(char) -> bool) -> int
    decreases cs.len() - pos,
{
    if pos < 0 || pos >= cs.len() || !p(cs[pos]) {
        pos
    } else {
        run_end(cs, pos + 1, p)
    }
}

/// The prefixes of the ECA Digital jurisdiction.
pub open spec fn jurisdiction_prefix(p: Seq<char>) -> bool {
    p == "ECA.AGE.VERIFY"@ || p == "ECA.PARENT.CONSENT"@ || p == "ECA.LOOTBOX.BLOCK"@
}

/// A standard's code or a jurisdiction's prefix.
pub open spec fn known_prefix(p: Seq<char>) -> bool {
    prefix_standard(p) is Some || jurisdiction_prefix(p)
}

/// The prefix that a comment's text declares: the part before its first
/// colon, trimmed, when a colon follows and that part is a known prefix.
pub open spec fn comment_prefix(text: Seq<char>) -> Option<Seq<char>> {
    let parts = segments(text, ':');
    if parts.len() > 1 && known_prefix(trim_of(parts[0])) {
        Some(trim_of(parts[0]))
    } else {
        None
    }
}

/// The token for a single punctuation or newline character.
pub open spec fn single_char_token(c: char) -> Option<TokenView> {
    if c == '\n' {
        Some(TokenView::Newline)
    } else if c == '(' {
        Some(TokenView::LeftParen)
    } else if c == ')' {
        Some(TokenView::RightParen)
    } else if c == '{' {
        Some(TokenView::LeftBrace)
    } else if c == '}' {
        Some(TokenView::RightBrace)
    } else if c == ';' {
        Some(TokenView::Semicolon)
    } else if c == ',' {
        Some(TokenView::Comma)
    } else if c == '.' {
        Some(TokenView::Dot)
    } else if c == ':' {
        Some(TokenView::Colon)
    } else if c == '=' {
        Some(TokenView::Equals)
    } else {
        None
    }
}

/// The token for an identifier's text: a keyword or an identifier.
pub open spec fn word_token(w: Seq<char>) -> TokenView {
    if w == "function"@ || w == "fn"@ {
        TokenView::Function
    } else if w == "let"@ {
        TokenView::Let
    } else if w == "if"@ {
        TokenView::If
    } else if w == "else"@ {
        TokenView::Else
    } else if w == "return"@ {
        TokenView::Return
    } else {
        TokenView::Identifier(w)
    }
}

/// The next token of `cs` from `pos` on, and the position after it.
/// Blanks are skipped first; a comment `//` runs to the end of its line and
/// yields a prefix token, ending before the newline, or else is skipped.
pub open spec fn lex(cs: Seq<char>, pos: int) -> (TokenView, int)
    decreases cs.len() - pos,
{
    let p = run_end(cs, pos, |c: char| blank(c));
    if pos < 0 || p < pos || p >= cs.len() {
        (TokenView::Eof, p)
    } else {
        let c = cs[p];
        if c == '/' {
            if p + 1 < cs.len() && cs[p + 1] == '/' {
                let e = run_end(cs, p + 2, |c: char| c != '\n');
                match comment_prefix(trim_of(cs.subrange(p + 2, e))) {
                    Some(prefix) => (TokenView::CompliancePrefix(prefix), e),
                    None => if pos < e <= cs.len() {
                        lex(cs, e)
                    } else {
                        (TokenView::Eof, e)
                    },
                }
            } else {
                (TokenView::Invalid(seq!['/']), p + 1)
            }
        } else if single_char_token(c) is Some {
            (single_char_token(c)->0, p + 1)
        } else if c == '"' {
            let q = run_end(cs, p + 1, |c: char| c != '"');
            if q < cs.len() {
                (TokenView::String(cs.subrange(p + 1, q)), q + 1)
            } else {
                (TokenView::String(cs.subrange(p + 1, q)), q)
            }
        } else if alphabetic(c) || c == '_' {
            let e = run_end(cs, p, |c: char| ident_char(c));
            (word_token(cs.subrange(p, e)), e)
        } else if numeric(c) {
            let e = run_end(cs, p, |c: char| number_char(c));
            (TokenView::Number(cs.subrange(p, e)), e)
        } else {
            (TokenView::Invalid(seq![c]), p + 1)
        }
    }
}

/// `run_end` stays within `pos ..= cs.len()` and stops only at a character
/// that fails the predicate.
pub proof fn lemma_run_end(cs: Seq<char>, pos: int, p: spec_fn(char) -> bool)
    requires
        0 <= pos <= cs.len(),
    ensures
        pos <= run_end(cs, pos, p) <= cs.len(),
        run_end(cs, pos, p) < cs.len() ==> !p(cs[run_end(cs, pos, p)]),
        forall|k: int| pos <= k < run_end(cs, pos, p) ==> p(#[trigger] cs[k]),
    decreases cs.len() - pos,
{
    if pos < cs.len() && p(cs[pos]) {
        lemma_run_end(cs, pos + 1, p);
    }
}

/// `lex` moves forward and stays within the text; only `Eof` may leave
/// the position where it was, and `Eof` comes only at the end of the text.
pub proof fn lemma_lex_progress(cs: Seq<char>, pos: int)
    requires
        0 <= pos <= cs.len(),
    ensures
        pos <= lex(cs, pos).1 <= cs.len(),
        !(lex(cs, pos).0 is Eof) ==> lex(cs, pos).1 > pos,
        lex(cs, pos).0 is Eof ==> lex(cs, pos).1 == cs.len(),
    decreases cs.len() - pos,
{
    lemma_run_end(cs, pos, |c: char| blank(c));
    let p = run_end(cs, pos, |c: char| blank(c));
    if p < cs.len() {
        let c = cs[p];
        if c == '/' && p + 1 < cs.len() && cs[p + 1] == '/' {
            lemma_run_end(cs, p + 2, |c: char| c != '\n');
            let e = run_end(cs, p + 2, |c: char| c != '\n');
            if comment_prefix(trim_of(cs.subrange(p + 2, e))) is None {
                lemma_lex_progress(cs, e);
            }
        } else if c == '"' {
            lemma_run_end(cs, p + 1, |c: char| c != '"');
        } else if alphabetic(c) || c == '_' {
            lemma_run_end(cs, p, |c: char| ident_char(c));
        } else if numeric(c) {
            lemma_run_end(cs, p, |c: char| number_char(c));
        }
    }
}

/// A tokenizer over the characters of one input text.
#[derive(Debug, Clone)]
pub struct Lexer {
    chars: Vec<char>,
    position: usize,
}

impl Lexer {
    /// The characters of the input.
    pub closed spec fn text(&self) -> Seq<char> {
        self.chars@
    }

    /// The index of the next character to read.
    pub closed spec fn pos(&self) -> int {
        self.position as int
    }

    /// The position lies within the input.
    pub open spec fn wf(&self) -> bool {
        0 <= self.pos() <= self.text().len()
    }

    /// A tokenizer at the start of `input`.
    pub fn new(input: String) -> (r: Lexer)
        ensures
            r.wf(),
            r.text() == input@,
            r.pos() == 0,
    {
        Lexer { chars: chars_of(input.as_str()), position: 0 }
    }

    /// The index of the next character to read.
    pub fn position(&self) -> (r: usize)
        ensures
            r == self.pos(),
    {
        self.position
    }

    /// The characters from `from` up to `to`.
    pub fn slice(&self, from: usize, to: usize) -> (r: String)
        requires
            from <= to <= self.text().len(),
        ensures
            r@ == self.text().subrange(from as int, to as int),
    {
        text_between(&self.chars, from, to)
    }

    /// The character at the position, if any.
    fn current_char(&self) -> (r: Option<char>)
        requires
            self.wf(),
        ensures
            r == (if self.pos() < self.text().len() {
                Some(self.text()[self.pos()])
            } else {
                None
            }),
    {
        if self.position < self.chars.len() {
            Some(self.chars[self.position])
        } else {
            None
        }
    }

    /// The character after the position, if any.
    fn peek_char(&self) -> (r: Option<char>)
        requires
            self.wf(),
        ensures
            r == (if self.pos() + 1 < self.text().len() {
                Some(self.text()[self.pos() + 1])
            } else {
                None
            }),
    {
        if self.position < self.chars.len() && self.position + 1 < self.chars.len() {
            Some(self.chars[self.position + 1])
        } else {
            None
        }
    }

    /// Moves past the current character, if there is one.
    fn read_char(&mut self)
        requires
            old(self).wf(),
        ensures
            final(self).wf(),
            final(self).text() == old(self).text(),
            final(self).pos() == if old(self).pos() < old(self).text().len() {
                old(self).pos() + 1
            } else {
                old(self).pos()
            },
    {
        if self.position < self.chars.len() {
            self.position = self.position + 1;
        }
    }

    /// Skips white space other than newlines.
    fn skip_whitespace(&mut self)
        requires
            old(self).wf(),
        ensures
            final(self).wf(),
            final(self).text() == old(self).text(),
            final(self).pos() == run_end(old(self).text(), old(self).pos(), |c: char| blank(c)),
    {
        let ghost start = self.pos();
        let ghost f = |c: char| blank(c);
        while self.position < self.chars.len() && is_white_space(self.chars[self.position])
            && self.chars[self.position] != '\n'
            invariant
                forall|c: char| #[trigger] f(c) == blank(c),
                self.wf(),
                self.text() == old(self).text(),
                start == old(self).pos(),
                start <= self.pos(),
                run_end(self.text(), start, f) == run_end(self.text(), self.pos(), f),
            decreases self.chars@.len() - self.position,
        {
            assert(f(self.text()[self.pos()]));
            assert(run_end(self.text(), self.pos(), f) == run_end(self.text(), self.pos() + 1, f));
            self.position = self.position + 1;
        }
    }

    /// Moves to the end of an identifier run from the position, and returns
    /// where the run ended.
    fn read_ident_run(&mut self) -> (r: usize)
        requires
            old(self).wf(),
        ensures
            final(self).wf(),
            final(self).text() == old(self).text(),
            r == final(self).pos(),
            final(self).pos() == run_end(
                old(self).text(),
                old(self).pos(),
                |c: char| ident_char(c),
            ),
    {
        let ghost start = self.pos();
        let ghost f = |c: char| ident_char(c);
        while self.position < self.chars.len() && (is_alphabetic(self.chars[self.position])
            || is_numeric(self.chars[self.position]) || self.chars[self.position] == '_'
            || self.chars[self.position] == '.')
            invariant
                forall|c: char| #[trigger] f(c) == ident_char(c),
                self.wf(),
                self.text() == old(self).text(),
                start == old(self).pos(),
                run_end(self.text(), start, f) == run_end(self.text(), self.pos(), f),
            decreases self.chars@.len() - self.position,
        {
            assert(f(self.text()[self.pos()]));
            assert(run_end(self.text(), self.pos(), f) == run_end(self.text(), self.pos() + 1, f));
            self.position = self.position + 1;
        }
        self.position
    }

    /// Moves to the end of a numeric run from the position.
    fn read_number_run(&mut self) -> (r: usize)
        requires
            old(self).wf(),
        ensures
            final(self).wf(),
            final(self).text() == old(self).text(),
            r == final(self).pos(),
            final(self).pos() == run_end(
                old(self).text(),
                old(self).pos(),
                |c: char| number_char(c),
            ),
    {
        let ghost start = self.pos();
        let ghost f = |c: char| number_char(c);
        while self.position < self.chars.len() && (is_numeric(self.chars[self.position])
            || self.chars[self.position] == '.')
            invariant
                forall|c: char| #[trigger] f(c) == number_char(c),
                self.wf(),
                self.text() == old(self).text(),
                start == old(self).pos(),
                run_end(self.text(), start, f) == run_end(self.text(), self.pos(), f),
            decreases self.chars@.len() - self.position,
        {
            assert(f(self.text()[self.pos()]));
            assert(run_end(self.text(), self.pos(), f) == run_end(self.text(), self.pos() + 1, f));
            self.position = self.position + 1;
        }
        self.position
    }

    /// Moves to the next occurrence of `stop`, or to the end of the input.
    fn read_until(&mut self, stop: char) -> (r: usize)
        requires
            old(self).wf(),
        ensures
            final(self).wf(),
            final(self).text() == old(self).text(),
            r == final(self).pos(),
            final(self).pos() == run_end(old(self).text(), old(self).pos(), |c: char| c != stop),
    {
        let ghost start = self.pos();
        let ghost f = |c: char| c != stop;
        while self.position < self.chars.len() && self.chars[self.position] != stop
            invariant
                forall|c: char| #[trigger] f(c) == (c != stop),
                self.wf(),
                self.text() == old(self).text(),
                start == old(self).pos(),
                run_end(self.text(), start, f) == run_end(self.text(), self.pos(), f),
            decreases self.chars@.len() - self.position,
        {
            assert(f(self.text()[self.pos()]));
            assert(run_end(self.text(), self.pos(), f) == run_end(self.text(), self.pos() + 1, f));
            self.position = self.position + 1;
        }
        self.position
    }
}

/// Whether `s` is one of the known compliance prefixes: a standard's code
/// or a jurisdiction's prefix.
pub fn is_compliance_prefix(s: &str) -> (r: bool)
    ensures
        r == known_prefix(s@),
{
    same_text(s, "S.O.S") || same_text(s, "G.D.P.R") || same_text(s, "Q.M.S") || same_text(
        s,
        "A.C.C",
    ) || same_text(s, "S.U.S") || same_text(s, "D.I.V") || same_text(s, "P.A.I.N.E.L")
        || same_text(s, "R.E.L.A.T.O") || same_text(s, "A.L.G.O.R.I.T.H.M") || same_text(
        s,
        "L.O.O.T.B.O.X",
    ) || same_text(s, "S.D.K.S.C.A.N") || same_text(s, "ECA.AGE.VERIFY") || same_text(
        s,
        "ECA.PARENT.CONSENT",
    ) || same_text(s, "ECA.LOOTBOX.BLOCK")
}

/// The compliance prefix that a comment's text declares, if any: the part
/// before its first colon, trimmed, when that part is a known prefix.
pub fn extract_prefix_from_comment(comment: &str) -> (r: Option<String>)
    ensures
        match r {
            Some(p) => comment_prefix(comment@) == Some(p@),
            None => comment_prefix(comment@) is None,
        },
{
    let parts = split_on(comment, ':');
    if parts.len() > 1 {
        assert(texts(parts@)[0] == parts@[0]@);
        let candidate = trimmed(parts[0].as_str());
        if is_compliance_prefix(candidate.as_str()) {
            return Some(candidate);
        }
    }
    None
}

/// The token for an identifier's text.
fn keyword_or_identifier(word: String) -> (r: Token)
    ensures
        r@ == word_token(word@),
{
    if same_text(word.as_str(), "function") || same_text(word.as_str(), "fn") {
        Token::Function
    } else if same_text(word.as_str(), "let") {
        Token::Let
    } else if same_text(word.as_str(), "if") {
        Token::If
    } else if same_text(word.as_str(), "else") {
        Token::Else
    } else if same_text(word.as_str(), "return") {
        Token::Return
    } else {
        Token::Identifier(word)
    }
}

/// The token for a single punctuation or newline character.
fn single_char(c: char) -> (r: Option<Token>)
    ensures
        match r {
            Some(t) => single_char_token(c) == Some(t@),
            None => single_char_token(c) is None,
        },
{
    match c {
        '\n' => Some(Token::Newline),
        '(' => Some(Token::LeftParen),
        ')' => Some(Token::RightParen),
        '{' => Some(Token::LeftBrace),
        '}' => Some(Token::RightBrace),
        ';' => Some(Token::Semicolon),
        ',' => Some(Token::Comma),
        '.' => Some(Token::Dot),
        ':' => Some(Token::Colon),
        '=' => Some(Token::Equals),
        _ => None,
    }
}

impl Lexer {
    /// Reads the next token: the one that `lex` gives at the position.
    pub fn next_token(&mut self) -> (r: Token)
        requires
            old(self).wf(),
        ensures
            final(self).wf(),
            final(self).text() == old(self).text(),
            (r@, final(self).pos()) == lex(old(self).text(), old(self).pos()),
    {
        let ghost cs = self.text();
        let ghost start_pos = self.pos();
        loop
            invariant
                self.wf(),
                self.text() == cs,
                cs == old(self).text(),
                start_pos == old(self).pos(),
                lex(cs, self.pos()) == lex(cs, start_pos),
            decreases cs.len() - self.pos(),
        {
            let ghost pos = self.pos();
            self.skip_whitespace();
            proof {
                lemma_run_end(cs, pos, |c: char| blank(c));
            }
            let p = self.position;
            match self.current_char() {
                None => {
                    return Token::Eof;
                },
                Some(c) => {
                    if c == '/' {
                        if self.peek_char() == Some('/') {
                            self.read_char();
                            self.read_char();
                            let start = self.position;
                            let end = self.read_until('\n');
                            proof {
                                lemma_run_end(cs, p + 2, |c: char| c != '\n');
                            }
                            let raw = self.slice(start, end);
                            let comment = trimmed(raw.as_str());
                            match extract_prefix_from_comment(comment.as_str()) {
                                Some(prefix) => {
                                    return Token::CompliancePrefix(prefix);
                                },
                                None => {
                                    assert(lex(cs, pos) == lex(cs, end as int));
                                },
                            }
                        } else {
                            self.read_char();
                            return Token::Invalid(char_text(c));
                        }
                    } else {
                        match single_char(c) {
                            Some(t) => {
                                self.read_char();
                                return t;
                            },
                            None => {
                                if c == '"' {
                                    self.read_char();
                                    let start = self.position;
                                    let end = self.read_until('"');
                                    proof {
                                        lemma_run_end(cs, p + 1, |c: char| c != '"');
                                    }
                                    let content = self.slice(start, end);
                                    self.read_char();
                                    return Token::String(content);
                                } else if is_alphabetic(c) || c == '_' {
                                    let end = self.read_ident_run();
                                    proof {
                                        lemma_run_end(cs, p as int, |c: char| ident_char(c));
                                    }
                                    let word = self.slice(p, end);
                                    return keyword_or_identifier(word);
                                } else if is_numeric(c) {
                                    let end = self.read_number_run();
                                    proof {
                                        lemma_run_end(cs, p as int, |c: char| number_char(c));
                                    }
                                    return Token::Number(self.slice(p, end));
                                } else {
                                    self.read_char();
                                    return Token::Invalid(char_text(c));
                                }
                            },
                        }
                    }
                },
            }
        }
    }
}

/// A string of the one character `c`.
fn char_text(c: char) -> (r: String)
    ensures
        r@ == seq![c],
{
    crate::text::char_string(c)
}

} // verus!
