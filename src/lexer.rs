use vstd::prelude::*;
use crate::diag::Diag;
use crate::token::{Span, Token, TokenType};

verus! {

/// Unicode white space, as `char::is_whitespace` defines it.
pub open spec fn is_space(c: char) -> bool {
    c == ' ' || ('\u{9}' <= c && c <= '\u{d}') || c == '\u{85}' || c == '\u{a0}'
        || c == '\u{1680}' || ('\u{2000}' <= c && c <= '\u{200a}') || c == '\u{2028}'
        || c == '\u{2029}' || c == '\u{202f}' || c == '\u{205f}' || c == '\u{3000}'
}

pub open spec fn is_digit(c: char) -> bool {
    '0' <= c && c <= '9'
}

pub open spec fn is_word_start(c: char) -> bool {
    ('a' <= c && c <= 'z') || ('A' <= c && c <= 'Z') || c == '_'
}

pub open spec fn is_word_char(c: char) -> bool {
    is_word_start(c) || is_digit(c)
}

/// The first position from `p` that does not hold white space.
pub open spec fn skip_space(s: Seq<char>, p: int) -> int
    decreases s.len() - p,
{
    if 0 <= p < s.len() && is_space(s[p]) {
        skip_space(s, p + 1)
    } else {
        p
    }
}

/// The end of the run of digits that starts at `p`.
pub open spec fn digits_end(s: Seq<char>, p: int) -> int
    decreases s.len() - p,
{
    if 0 <= p < s.len() && is_digit(s[p]) {
        digits_end(s, p + 1)
    } else {
        p
    }
}

/// The end of the word that starts at `p`.
pub open spec fn word_end(s: Seq<char>, p: int) -> int
    decreases s.len() - p,
{
    if 0 <= p < s.len() && is_word_char(s[p]) {
        word_end(s, p + 1)
    } else {
        p
    }
}

/// The decimal value of the digits in `s[from..to]`.
pub open spec fn digits_value(s: Seq<char>, from: int, to: int) -> int
    decreases to - from,
{
    if to <= from {
        0
    } else {
        digits_value(s, from, to - 1) * 10 + (s[to - 1] as int - '0' as int)
    }
}

/// The keyword that a word spells, if any.
pub open spec fn keyword_of(w: Seq<char>) -> Option<TokenType> {
    if w == "fn"@ { Some(TokenType::Fn) }
    else if w == "var"@ { Some(TokenType::Var) }
    else if w == "int"@ { Some(TokenType::Int) }
    else if w == "char"@ { Some(TokenType::Char) }
    else if w == "struct"@ { Some(TokenType::Struct) }
    else if w == "enum"@ { Some(TokenType::Enum) }
    else if w == "return"@ { Some(TokenType::Return) }
    else if w == "if"@ { Some(TokenType::If) }
    else if w == "else"@ { Some(TokenType::Else) }
    else if w == "while"@ { Some(TokenType::While) }
    else if w == "for"@ { Some(TokenType::For) }
    else if w == "break"@ { Some(TokenType::Break) }
    else if w == "continue"@ { Some(TokenType::Continue) }
    else if w == "void"@ { Some(TokenType::Void) }
    else if w == "const"@ { Some(TokenType::Const) }
    else if w == "static"@ { Some(TokenType::Static) }
    else if w == "typedef"@ { Some(TokenType::Typedef) }
    else if w == "sizeof"@ { Some(TokenType::Sizeof) }
    else if w == "switch"@ { Some(TokenType::Switch) }
    else if w == "case"@ { Some(TokenType::Case) }
    else if w == "default"@ { Some(TokenType::Default) }
    else if w == "do"@ { Some(TokenType::Do) }
    else if w == "goto"@ { Some(TokenType::Goto) }
    else if w == "union"@ { Some(TokenType::Union) }
    else { None }
}

/// The token that a punctuation or operator character starts, and its length.
pub open spec fn symbol_at(s: Seq<char>, p: int) -> Option<(TokenType, int)> {
    let c = s[p];
    if c == '-' && p + 1 < s.len() && s[p + 1] == '>' { Some((TokenType::RArrow, 2)) }
    else if c == '+' { Some((TokenType::Add, 1)) }
    else if c == '-' { Some((TokenType::Sub, 1)) }
    else if c == '*' { Some((TokenType::Mul, 1)) }
    else if c == '/' { Some((TokenType::Div, 1)) }
    else if c == '%' { Some((TokenType::Mod, 1)) }
    else if c == '=' { Some((TokenType::Eq, 1)) }
    else if c == '<' { Some((TokenType::Lt, 1)) }
    else if c == '>' { Some((TokenType::Gt, 1)) }
    else if c == '!' { Some((TokenType::Not, 1)) }
    else if c == '&' { Some((TokenType::And, 1)) }
    else if c == '(' { Some((TokenType::LParen, 1)) }
    else if c == ')' { Some((TokenType::RParen, 1)) }
    else if c == '{' { Some((TokenType::LBrace, 1)) }
    else if c == '}' { Some((TokenType::RBrace, 1)) }
    else if c == ';' { Some((TokenType::SemiColon, 1)) }
    else if c == ':' { Some((TokenType::Colon, 1)) }
    else if c == ',' { Some((TokenType::Comma, 1)) }
    else { None }
}

/// What the characters from `p` (not white space) make: a word, a number,
/// a symbol, the end, or a character that starts no token.
pub enum Lexeme {
    End,
    Word(Seq<char>),
    Number(Seq<char>, int),
    Symbol(TokenType),
    Stray(char),
}

/// The lexeme at `p` and the position after it.
pub open spec fn lexeme_at(s: Seq<char>, p: int) -> (Lexeme, int) {
    if !(0 <= p < s.len()) {
        (Lexeme::End, p)
    } else if is_digit(s[p]) {
        let e = digits_end(s, p);
        (Lexeme::Number(s.subrange(p, e), digits_value(s, p, e)), e)
    } else if is_word_start(s[p]) {
        let e = word_end(s, p);
        (Lexeme::Word(s.subrange(p, e)), e)
    } else {
        match symbol_at(s, p) {
            Some((t, n)) => (Lexeme::Symbol(t), p + n),
            None => (Lexeme::Stray(s[p]), p + 1),
        }
    }
}

/// Line and column after reading `c`: a newline starts the next line.
pub open spec fn advance(line: int, col: int, c: char) -> (int, int) {
    if c == '\n' {
        (line + 1, 0)
    } else {
        (line, col + 1)
    }
}

/// Line and column after reading `s[from..to]`.
pub open spec fn advance_over(s: Seq<char>, from: int, to: int, line: int, col: int) -> (int, int)
    decreases to - from,
{
    if to <= from {
        (line, col)
    } else {
        let lc = advance_over(s, from, to - 1, line, col);
        advance(lc.0, lc.1, s[to - 1])
    }
}

/// Whether `t` is the token type that lexeme `x` stands for.
pub open spec fn token_of(x: Lexeme, t: TokenType) -> bool {
    match x {
        Lexeme::End => t == TokenType::Eof,
        Lexeme::Word(w) => match keyword_of(w) {
            Some(k) => t == k,
            None => t is Identifier && t->Identifier_0@ == w,
        },
        Lexeme::Number(_, v) => v <= i64::MAX && t == TokenType::IntegerLiteral(v as i64),
        Lexeme::Symbol(k) => t == k,
        Lexeme::Stray(_) => false,
    }
}

/// Whether `r` is what lexeme `x` gives, with span `sp`: its token, or the
/// diagnostic for a stray character or a number too large for `i64`.
pub open spec fn lexed(x: Lexeme, r: Result<Token, Diag>, sp: Span) -> bool {
    match r {
        Ok(t) => token_of(x, t.token_type) && t.span == sp,
        Err(d) => match x {
            Lexeme::Stray(c) => d == Diag::InvalidCharacter(c, sp),
            Lexeme::Number(text, v) => v > i64::MAX && d is InvalidNumberFormat
                && d->InvalidNumberFormat_0@ == text && d->InvalidNumberFormat_1 == sp,
            _ => false,
        },
    }
}

/// Turns source text into tokens, tracking lines and columns.
#[derive(Debug)]
pub struct Lexer {
    pub source: String,
    pub line: usize,
    pub position: usize,
    pub column: usize,
    pub pline: usize,
    pub pcol: usize,
}

proof fn lemma_advance_split(s: Seq<char>, a: int, b: int, c: int, line: int, col: int)
    requires
        a <= b <= c,
    ensures
        advance_over(s, a, c, line, col) == ({
            let m = advance_over(s, a, b, line, col);
            advance_over(s, b, c, m.0, m.1)
        }),
    decreases c - b,
{
    if c > b {
        lemma_advance_split(s, a, b, c - 1, line, col);
    }
}

pub open spec fn span_of(pline: usize, pcol: usize, line: usize, column: usize) -> Span {
    Span {
        start_line: pline,
        end_line: line,
        start_col: pcol,
        end_col: if column > 0 { (column - 1) as usize } else { 0 },
    }
}

fn is_space_char(c: char) -> (r: bool)
    ensures
        r == is_space(c),
{
    c == ' ' || ('\u{9}' <= c && c <= '\u{d}') || c == '\u{85}' || c == '\u{a0}'
        || c == '\u{1680}' || ('\u{2000}' <= c && c <= '\u{200a}') || c == '\u{2028}'
        || c == '\u{2029}' || c == '\u{202f}' || c == '\u{205f}' || c == '\u{3000}'
}

fn is_word_char_exec(c: char) -> (r: bool)
    ensures
        r == is_word_char(c),
{
    ('a' <= c && c <= 'z') || ('A' <= c && c <= 'Z') || c == '_' || ('0' <= c && c <= '9')
}

/// Whether two strings hold the same characters.
fn same_text(a: &str, b: &str) -> (r: bool)
    ensures
        r == (a@ == b@),
{
    let n = a.unicode_len();
    if n != b.unicode_len() {
        return false;
    }
    let mut i: usize = 0;
    while i < n
        invariant
            n == a@.len(),
            n == b@.len(),
            i <= n,
            a@.subrange(0, i as int) == b@.subrange(0, i as int),
        decreases n - i,
    {
        if a.get_char(i) != b.get_char(i) {
            return false;
        }
        assert(a@.subrange(0, i + 1) =~= a@.subrange(0, i as int).push(a@[i as int]));
        assert(b@.subrange(0, i + 1) =~= b@.subrange(0, i as int).push(b@[i as int]));
        i = i + 1;
    }
    assert(a@ =~= a@.subrange(0, n as int));
    assert(b@ =~= b@.subrange(0, n as int));
    true
}

/// The keyword that `w` spells, if any.
fn keyword(w: &str) -> (r: Option<TokenType>)
    ensures
        r == keyword_of(w@),
{
    if same_text(w, "fn") {
        return Some(TokenType::Fn);
    }
    if same_text(w, "var") {
        return Some(TokenType::Var);
    }
    if same_text(w, "int") {
        return Some(TokenType::Int);
    }
    if same_text(w, "char") {
        return Some(TokenType::Char);
    }
    if same_text(w, "struct") {
        return Some(TokenType::Struct);
    }
    if same_text(w, "enum") {
        return Some(TokenType::Enum);
    }
    if same_text(w, "return") {
        return Some(TokenType::Return);
    }
    if same_text(w, "if") {
        return Some(TokenType::If);
    }
    if same_text(w, "else") {
        return Some(TokenType::Else);
    }
    if same_text(w, "while") {
        return Some(TokenType::While);
    }
    if same_text(w, "for") {
        return Some(TokenType::For);
    }
    if same_text(w, "break") {
        return Some(TokenType::Break);
    }
    if same_text(w, "continue") {
        return Some(TokenType::Continue);
    }
    if same_text(w, "void") {
        return Some(TokenType::Void);
    }
    if same_text(w, "const") {
        return Some(TokenType::Const);
    }
    if same_text(w, "static") {
        return Some(TokenType::Static);
    }
    if same_text(w, "typedef") {
        return Some(TokenType::Typedef);
    }
    if same_text(w, "sizeof") {
        return Some(TokenType::Sizeof);
    }
    if same_text(w, "switch") {
        return Some(TokenType::Switch);
    }
    if same_text(w, "case") {
        return Some(TokenType::Case);
    }
    if same_text(w, "default") {
        return Some(TokenType::Default);
    }
    if same_text(w, "do") {
        return Some(TokenType::Do);
    }
    if same_text(w, "goto") {
        return Some(TokenType::Goto);
    }
    if same_text(w, "union") {
        return Some(TokenType::Union);
    }
    None
}

impl Lexer {
    /// Positions and counters agree with one another and fit in a word.
    pub open spec fn wf(&self) -> bool {
        &&& self.source@.len() < usize::MAX
        &&& self.position <= self.source@.len()
        &&& self.line <= self.position + 1
        &&& self.column <= self.position
    }

    /// `after` is `before` moved to `end`, its line and column counted over
    /// the characters passed.
    pub open spec fn moved_to(before: Lexer, after: Lexer, end: int) -> bool {
        let lc = advance_over(before.source@, before.position as int, end, before.line as int, before.column as int);
        &&& after.wf()
        &&& after.source@ == before.source@
        &&& after.position == end
        &&& after.line == lc.0
        &&& after.column == lc.1
        &&& after.pline == before.pline
        &&& after.pcol == before.pcol
    }

    pub fn new(source: String) -> (r: Self)
        requires
            source@.len() < usize::MAX,
        ensures
            r.source@ == source@,
            r.line == 1,
            r.position == 0,
            r.column == 0,
            r.pline == 1,
            r.pcol == 0,
            r.wf(),
    {
        Lexer { source, line: 1, pline: 1, column: 0, pcol: 0, position: 0 }
    }

    fn peek(&self, len: usize) -> (r: Option<char>)
        requires
            len == self.source@.len(),
        ensures
            r == if self.position < len { Some(self.source@[self.position as int]) } else { None::<char> },
    {
        if self.position < len {
            Some(self.source.as_str().get_char(self.position))
        } else {
            None
        }
    }

    /// Reads one character, counting lines and columns.
    fn eat(&mut self, len: usize) -> (r: Option<char>)
        requires
            old(self).wf(),
            len == old(self).source@.len(),
        ensures
            old(self).position < len ==> r == Some(old(self).source@[old(self).position as int])
                && Lexer::moved_to(*old(self), *final(self), old(self).position + 1),
            old(self).position >= len ==> r is None && *final(self) == *old(self),
    {
        let ch = match self.peek(len) {
            Some(c) => c,
            None => {
                return None;
            },
        };
        proof {
            reveal_with_fuel(advance_over, 2);
        }
        self.position = self.position + 1;
        if ch == '\n' {
            self.line = self.line + 1;
            self.column = 0;
        } else {
            self.column = self.column + 1;
        }
        Some(ch)
    }

    /// Marks where the next token starts.
    fn snap_shot(&mut self)
        ensures
            *final(self) == (Lexer { pline: old(self).line, pcol: old(self).column, ..*old(self) }),
    {
        self.pline = self.line;
        self.pcol = self.column;
    }

    /// A token of type `token_type` from the marked start to here.
    fn make_token(&self, token_type: TokenType) -> (r: Token)
        ensures
            r.token_type == token_type,
            r.span == span_of(self.pline, self.pcol, self.line, self.column),
    {
        let end_col = if self.column > 0 { self.column - 1 } else { 0 };
        Token::new(token_type, Span::new(self.pline, self.line, self.pcol, end_col))
    }

    fn skip_spaces(&mut self, len: usize)
        requires
            old(self).wf(),
            len == old(self).source@.len(),
        ensures
            Lexer::moved_to(*old(self), *final(self), skip_space(old(self).source@, old(self).position as int)),
            old(self).position <= final(self).position,
    {
        assert(advance_over(self.source@, self.position as int, self.position as int, self.line as int, self.column as int) == (self.line as int, self.column as int));
        loop
            invariant
                len == self.source@.len(),
                old(self).position <= self.position,
                Lexer::moved_to(*old(self), *self, self.position as int),
                skip_space(self.source@, old(self).position as int) == skip_space(self.source@, self.position as int),
            ensures
                skip_space(self.source@, self.position as int) == self.position as int,
            decreases len - self.position,
        {
            match self.peek(len) {
                Some(c) => {
                    if !is_space_char(c) {
                        assert(skip_space(self.source@, self.position as int) == self.position as int);
                        break;
                    }
                },
                None => {
                    assert(skip_space(self.source@, self.position as int) == self.position as int);
                    break;
                },
            }
            let ghost prev = *self;
            self.eat(len);
            proof {
                lemma_advance_split(self.source@, old(self).position as int, prev.position as int, self.position as int, old(self).line as int, old(self).column as int);
            }
        }
    }

    /// Reads a run of digits: its value, or whether it exceeds `i64::MAX`.
    fn eat_digits(&mut self, len: usize) -> (r: (i64, bool))
        requires
            old(self).wf(),
            len == old(self).source@.len(),
        ensures
            Lexer::moved_to(*old(self), *final(self), digits_end(old(self).source@, old(self).position as int)),
            old(self).position <= final(self).position,
            r.1 <==> digits_value(old(self).source@, old(self).position as int, final(self).position as int) > i64::MAX,
            !r.1 ==> r.0 as int == digits_value(old(self).source@, old(self).position as int, final(self).position as int),
    {
        let ghost s = self.source@;
        let ghost start = self.position as int;
        let mut num: i64 = 0;
        let mut overflow = false;
        assert(advance_over(s, start, start, self.line as int, self.column as int) == (self.line as int, self.column as int));
        loop
            invariant
                s == self.source@,
                len == s.len(),
                start == old(self).position,
                start <= self.position,
                Lexer::moved_to(*old(self), *self, self.position as int),
                digits_end(s, start) == digits_end(s, self.position as int),
                forall|k: int| start <= k < self.position ==> is_digit(#[trigger] s[k]),
                digits_value(s, start, self.position as int) >= 0,
                overflow <==> digits_value(s, start, self.position as int) > i64::MAX,
                !overflow ==> 0 <= num && num as int == digits_value(s, start, self.position as int),
            ensures
                digits_end(s, self.position as int) == self.position as int,
            decreases len - self.position,
        {
            let c = match self.peek(len) {
                Some(c) => c,
                None => {
                    break;
                },
            };
            if !('0' <= c && c <= '9') {
                break;
            }
            let d = (c as u32 - '0' as u32) as i64;
            if !overflow {
                if num > 922337203685477580 || (num == 922337203685477580 && d > 7) {
                    overflow = true;
                } else {
                    num = num * 10 + d;
                }
            }
            let ghost prev = *self;
            self.eat(len);
            proof {
                lemma_advance_split(s, start, prev.position as int, self.position as int, old(self).line as int, old(self).column as int);
            }
        }
        (num, overflow)
    }

    /// Reads the rest of a word.
    fn eat_word(&mut self, len: usize)
        requires
            old(self).wf(),
            len == old(self).source@.len(),
        ensures
            Lexer::moved_to(*old(self), *final(self), word_end(old(self).source@, old(self).position as int)),
            old(self).position <= final(self).position,
    {
        let ghost s = self.source@;
        let ghost start = self.position as int;
        assert(advance_over(s, start, start, self.line as int, self.column as int) == (self.line as int, self.column as int));
        loop
            invariant
                s == self.source@,
                len == s.len(),
                start == old(self).position,
                start <= self.position,
                Lexer::moved_to(*old(self), *self, self.position as int),
                word_end(s, start) == word_end(s, self.position as int),
            ensures
                word_end(s, self.position as int) == self.position as int,
            decreases len - self.position,
        {
            match self.peek(len) {
                Some(c) => {
                    if !is_word_char_exec(c) {
                        break;
                    }
                },
                None => {
                    break;
                },
            }
            let ghost prev = *self;
            self.eat(len);
            proof {
                lemma_advance_split(s, start, prev.position as int, self.position as int, old(self).line as int, old(self).column as int);
            }
        }
    }

    /// The operator or punctuation token that starts here, and its length.
    fn symbol(&self, len: usize) -> (r: Option<(TokenType, usize)>)
        requires
            self.position < len,
            len == self.source@.len(),
        ensures
            match symbol_at(self.source@, self.position as int) {
                Some((t, n)) => r == Some((t, n as usize)),
                None => r is None,
            },
    {
        let text = self.source.as_str();
        let c = text.get_char(self.position);
        if c == '-' && self.position + 1 < len && text.get_char(self.position + 1) == '>' {
            return Some((TokenType::RArrow, 2));
        }
        if c == '+' {
            return Some((TokenType::Add, 1));
        }
        if c == '-' {
            return Some((TokenType::Sub, 1));
        }
        if c == '*' {
            return Some((TokenType::Mul, 1));
        }
        if c == '/' {
            return Some((TokenType::Div, 1));
        }
        if c == '%' {
            return Some((TokenType::Mod, 1));
        }
        if c == '=' {
            return Some((TokenType::Eq, 1));
        }
        if c == '<' {
            return Some((TokenType::Lt, 1));
        }
        if c == '>' {
            return Some((TokenType::Gt, 1));
        }
        if c == '!' {
            return Some((TokenType::Not, 1));
        }
        if c == '&' {
            return Some((TokenType::And, 1));
        }
        if c == '(' {
            return Some((TokenType::LParen, 1));
        }
        if c == ')' {
            return Some((TokenType::RParen, 1));
        }
        if c == '{' {
            return Some((TokenType::LBrace, 1));
        }
        if c == '}' {
            return Some((TokenType::RBrace, 1));
        }
        if c == ';' {
            return Some((TokenType::SemiColon, 1));
        }
        if c == ':' {
            return Some((TokenType::Colon, 1));
        }
        if c == ',' {
            return Some((TokenType::Comma, 1));
        }
        None
    }

    fn current_span(&self) -> (r: Span)
        ensures
            r == span_of(self.pline, self.pcol, self.line, self.column),
    {
        let end_col = if self.column > 0 { self.column - 1 } else { 0 };
        Span::new(self.pline, self.line, self.pcol, end_col)
    }

    /// Reads the next token after any white space: a keyword, a name, an
    /// integer literal, an operator or punctuation, or the end of the text.
    /// A character that starts no token, or a literal too large for `i64`,
    /// gives a diagnostic instead; either way the lexer moves past it.
    pub fn next_token(&mut self) -> (r: Result<Token, Diag>)
        requires
            old(self).wf(),
        ensures
            ({
                let s = old(self).source@;
                let start = skip_space(s, old(self).position as int);
                let end = lexeme_at(s, start).1;
                let at_start = advance_over(s, old(self).position as int, start, old(self).line as int, old(self).column as int);
                let at_end = advance_over(s, old(self).position as int, end, old(self).line as int, old(self).column as int);
                &&& final(self).wf()
                &&& final(self).source@ == s
                &&& final(self).position == end
                &&& final(self).line == at_end.0
                &&& final(self).column == at_end.1
                &&& final(self).pline == at_start.0
                &&& final(self).pcol == at_start.1
                &&& lexed(
                    lexeme_at(s, start).0,
                    r,
                    span_of(final(self).pline, final(self).pcol, final(self).line, final(self).column),
                )
            }),
    {
        let len = self.source.as_str().unicode_len();
        let ghost s = self.source@;
        let ghost orig = *self;
        self.skip_spaces(len);
        self.snap_shot();
        let ghost snap = *self;
        let ghost start = self.position as int;
        assert(advance_over(s, start, start, self.line as int, self.column as int) == (self.line as int, self.column as int));
        let c = match self.peek(len) {
            Some(c) => c,
            None => {
                return Ok(self.make_token(TokenType::Eof));
            },
        };
        let from = self.position;
        let r = if '0' <= c && c <= '9' {
            let (num, overflow) = self.eat_digits(len);
            if overflow {
                let text = String::from_str(self.source.as_str().substring_char(from, self.position));
                Err(Diag::InvalidNumberFormat(text, self.current_span()))
            } else {
                Ok(self.make_token(TokenType::IntegerLiteral(num)))
            }
        } else if ('a' <= c && c <= 'z') || ('A' <= c && c <= 'Z') || c == '_' {
            self.eat_word(len);
            let w = self.source.as_str().substring_char(from, self.position);
            let token_type = match keyword(w) {
                Some(k) => k,
                None => TokenType::Identifier(String::from_str(w)),
            };
            Ok(self.make_token(token_type))
        } else {
            match self.symbol(len) {
                Some((t, n)) => {
                    self.eat(len);
                    if n == 2 {
                        let ghost mid = *self;
                        self.eat(len);
                        proof {
                            lemma_advance_split(s, start, mid.position as int, self.position as int, snap.line as int, snap.column as int);
                        }
                    }
                    Ok(self.make_token(t))
                },
                None => {
                    self.eat(len);
                    Err(Diag::InvalidCharacter(c, self.current_span()))
                },
            }
        };
        proof {
            lemma_advance_split(s, orig.position as int, start, self.position as int, orig.line as int, orig.column as int);
        }
        r
    }
}

} // verus!
