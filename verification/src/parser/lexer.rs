//! The lexer: a state machine that reads a source text one character at a
//! time and gives the tokens with their places.
use crate::parser::keywords::{DirectLocation, Keyword, Operator};
use crate::parser::text::{chars_of, is_digit, lowercase, string_of};
use vstd::prelude::*;

verus! {

/// A place in the source text. Rows and columns are counted from 1.
#[derive(Clone, Copy, Debug, PartialEq, Eq, Structural)]
pub struct Position {
    pub row: usize,
    pub column: usize,
}

/// A token with the place of its first character.
#[derive(Debug, PartialEq)]
pub enum Token {
    Identifier(String, Position),
    Operator(Operator, Position),
    DirectLocation(DirectLocation, Position),
    Keyword(Keyword, Position),
    Number(String, Position),
    String(String, Position),
    Colon(Position),
    Comma(Position),
    Dot(Position),
    At(Position),
    Plus(Position),
    Newline(Position),
    LeftBracket(Position),
    RightBracket(Position),
}

pub enum TokenView {
    Identifier(Seq<char>, Position),
    Operator(Operator, Position),
    DirectLocation(DirectLocation, Position),
    Keyword(Keyword, Position),
    Number(Seq<char>, Position),
    String(Seq<char>, Position),
    Colon(Position),
    Comma(Position),
    Dot(Position),
    At(Position),
    Plus(Position),
    Newline(Position),
    LeftBracket(Position),
    RightBracket(Position),
}

impl View for Token {
    type V = TokenView;

    open spec fn view(&self) -> TokenView {
        match *self {
            Token::Identifier(s, p) => TokenView::Identifier(s@, p),
            Token::Operator(o, p) => TokenView::Operator(o, p),
            Token::DirectLocation(d, p) => TokenView::DirectLocation(d, p),
            Token::Keyword(k, p) => TokenView::Keyword(k, p),
            Token::Number(s, p) => TokenView::Number(s@, p),
            Token::String(s, p) => TokenView::String(s@, p),
            Token::Colon(p) => TokenView::Colon(p),
            Token::Comma(p) => TokenView::Comma(p),
            Token::Dot(p) => TokenView::Dot(p),
            Token::At(p) => TokenView::At(p),
            Token::Plus(p) => TokenView::Plus(p),
            Token::Newline(p) => TokenView::Newline(p),
            Token::LeftBracket(p) => TokenView::LeftBracket(p),
            Token::RightBracket(p) => TokenView::RightBracket(p),
        }
    }
}

impl Clone for Token {
    fn clone(&self) -> (r: Token)
        ensures
            r@ == self@,
    {
        match self {
            Token::Identifier(s, p) => Token::Identifier(s.clone(), *p),
            Token::Operator(o, p) => Token::Operator(*o, *p),
            Token::DirectLocation(d, p) => Token::DirectLocation(*d, *p),
            Token::Keyword(k, p) => Token::Keyword(*k, *p),
            Token::Number(s, p) => Token::Number(s.clone(), *p),
            Token::String(s, p) => Token::String(s.clone(), *p),
            Token::Colon(p) => Token::Colon(*p),
            Token::Comma(p) => Token::Comma(*p),
            Token::Dot(p) => Token::Dot(*p),
            Token::At(p) => Token::At(*p),
            Token::Plus(p) => Token::Plus(*p),
            Token::Newline(p) => Token::Newline(*p),
            Token::LeftBracket(p) => Token::LeftBracket(*p),
            Token::RightBracket(p) => Token::RightBracket(*p),
        }
    }
}

impl TokenView {
    /// The place of the token's first character.
    pub open spec fn position(self) -> Position {
        match self {
            TokenView::Identifier(_, p) => p,
            TokenView::Operator(_, p) => p,
            TokenView::DirectLocation(_, p) => p,
            TokenView::Keyword(_, p) => p,
            TokenView::Number(_, p) => p,
            TokenView::String(_, p) => p,
            TokenView::Colon(p) => p,
            TokenView::Comma(p) => p,
            TokenView::Dot(p) => p,
            TokenView::At(p) => p,
            TokenView::Plus(p) => p,
            TokenView::Newline(p) => p,
            TokenView::LeftBracket(p) => p,
            TokenView::RightBracket(p) => p,
        }
    }

    /// The text of an identifier or of a number.
    pub open spec fn text(self) -> Option<Seq<char>> {
        match self {
            TokenView::Identifier(s, _) => Some(s),
            TokenView::Number(s, _) => Some(s),
            _ => None,
        }
    }

    /// A token that names a special function register names one that exists.
    pub open spec fn wf(self) -> bool {
        match self {
            TokenView::DirectLocation(d, _) => d.wf(),
            _ => true,
        }
    }
}

/// The tokens of a run, each by its view.
pub open spec fn token_views(tokens: Seq<Token>) -> Seq<TokenView> {
    Seq::new(tokens.len(), |i: int| tokens[i]@)
}

impl Token {
    pub fn is_identifier(&self) -> (r: bool)
        ensures
            r == (self@ is Identifier),
    {
        match self {
            Token::Identifier(_, _) => true,
            _ => false,
        }
    }

    pub fn is_number(&self) -> (r: bool)
        ensures
            r == (self@ is Number),
    {
        match self {
            Token::Number(_, _) => true,
            _ => false,
        }
    }

    pub fn is_colon(&self) -> (r: bool)
        ensures
            r == (self@ is Colon),
    {
        match self {
            Token::Colon(_) => true,
            _ => false,
        }
    }

    pub fn is_comma(&self) -> (r: bool)
        ensures
            r == (self@ is Comma),
    {
        match self {
            Token::Comma(_) => true,
            _ => false,
        }
    }

    pub fn is_dot(&self) -> (r: bool)
        ensures
            r == (self@ is Dot),
    {
        match self {
            Token::Dot(_) => true,
            _ => false,
        }
    }

    pub fn is_at(&self) -> (r: bool)
        ensures
            r == (self@ is At),
    {
        match self {
            Token::At(_) => true,
            _ => false,
        }
    }

    pub fn is_plus(&self) -> (r: bool)
        ensures
            r == (self@ is Plus),
    {
        match self {
            Token::Plus(_) => true,
            _ => false,
        }
    }

    pub fn is_left_bracket(&self) -> (r: bool)
        ensures
            r == (self@ is LeftBracket),
    {
        match self {
            Token::LeftBracket(_) => true,
            _ => false,
        }
    }

    pub fn is_right_bracket(&self) -> (r: bool)
        ensures
            r == (self@ is RightBracket),
    {
        match self {
            Token::RightBracket(_) => true,
            _ => false,
        }
    }

    pub fn is_newline(&self) -> (r: bool)
        ensures
            r == (self@ is Newline),
    {
        match self {
            Token::Newline(_) => true,
            _ => false,
        }
    }

    pub fn get_position(&self) -> (p: Position)
        ensures
            p == self@.position(),
    {
        match self {
            Token::Identifier(_, p) => *p,
            Token::Operator(_, p) => *p,
            Token::DirectLocation(_, p) => *p,
            Token::Keyword(_, p) => *p,
            Token::Number(_, p) => *p,
            Token::String(_, p) => *p,
            Token::Colon(p) => *p,
            Token::Comma(p) => *p,
            Token::Dot(p) => *p,
            Token::At(p) => *p,
            Token::Plus(p) => *p,
            Token::Newline(p) => *p,
            Token::LeftBracket(p) => *p,
            Token::RightBracket(p) => *p,
        }
    }

    /// The text of an identifier or of a number; no other token has one.
    pub fn get_string(&self) -> (r: Option<String>)
        ensures
            match r {
                Some(s) => self@.text() == Some(s@),
                None => self@.text().is_none(),
            },
    {
        match self {
            Token::Identifier(s, _) => Some(s.clone()),
            Token::Number(s, _) => Some(s.clone()),
            _ => None,
        }
    }
}

/// A character that the lexer could not take, with its place.
#[derive(Clone, Copy, Debug, PartialEq, Eq, Structural)]
pub enum TokenizerError {
    UnexpectedCharacter(Position, char),
}

/// What the lexer is in the middle of: nothing, a number, an identifier, a
/// string, an escape within a string, or a comment. A pending token holds
/// its text so far and the place where it began.
pub enum LexMode {
    Ready,
    Number(Seq<char>, Position),
    Identifier(Seq<char>, Position),
    Text(Seq<char>, Position),
    Escape(Seq<char>, Position),
    Comment,
}

/// The state of the lexer: the tokens given so far, the place of the next
/// character, and the mode.
pub struct LexState {
    pub tokens: Seq<TokenView>,
    pub position: Position,
    pub mode: LexMode,
}

/// The state after a character, and the error if the character was refused.
pub struct Step {
    pub state: LexState,
    pub error: Option<TokenizerError>,
}

/// The next place on the same row.
pub open spec fn right(p: Position) -> Position {
    Position { row: p.row, column: (p.column + 1) as usize }
}

/// The first place of the next row.
pub open spec fn below(p: Position) -> Position {
    Position { row: (p.row + 1) as usize, column: 1 }
}

pub open spec fn is_letter(c: char) -> bool {
    ('a' <= c && c <= 'z') || ('A' <= c && c <= 'Z')
}

/// A character that may follow the first digit of a number: a digit of any
/// base up to 16, or the mark of a base.
pub open spec fn is_number_char(c: char) -> bool {
    is_digit(c) || ('a' <= c && c <= 'f') || ('A' <= c && c <= 'F') || c == 'h' || c == 'H' || c
        == 'o' || c == 'O'
}

/// A character that ends a number.
pub open spec fn ends_number(c: char) -> bool {
    c == ' ' || c == '\t' || c == '\r' || c == '\n' || c == ',' || c == '+' || c == '-' || c
        == '*' || c == '/' || c == ';'
}

pub open spec fn is_identifier_char(c: char) -> bool {
    is_letter(c) || is_digit(c) || c == '_'
}

/// The character that an escape stands for, if it is one of `r`, `n`, `t`,
/// a backslash or a double quote.
pub open spec fn escaped(c: char) -> Option<char> {
    if c == 'r' {
        Some('\r')
    } else if c == 'n' {
        Some('\n')
    } else if c == 't' {
        Some('\t')
    } else if c == '\\' {
        Some('\\')
    } else if c == '"' {
        Some('"')
    } else {
        None
    }
}

/// The token that a punctuation character stands for.
pub open spec fn punctuator(c: char, p: Position) -> Option<TokenView> {
    if c == ':' {
        Some(TokenView::Colon(p))
    } else if c == ',' {
        Some(TokenView::Comma(p))
    } else if c == '.' {
        Some(TokenView::Dot(p))
    } else if c == '@' {
        Some(TokenView::At(p))
    } else if c == '+' {
        Some(TokenView::Plus(p))
    } else if c == '[' {
        Some(TokenView::LeftBracket(p))
    } else if c == ']' {
        Some(TokenView::RightBracket(p))
    } else {
        None
    }
}

/// The token that a word stands for: a keyword, else a special function
/// register, else a mnemonic, else an identifier with the word as written.
pub open spec fn categorize(word: Seq<char>, p: Position) -> TokenView {
    match Keyword::named(lowercase(word)) {
        Some(keyword) => TokenView::Keyword(keyword, p),
        None => match DirectLocation::named(word) {
            Some(location) => TokenView::DirectLocation(location, p),
            None => match Operator::named(lowercase(word)) {
                Some(operator) => TokenView::Operator(operator, p),
                None => TokenView::Identifier(word, p),
            },
        },
    }
}

/// The state with one more token.
pub open spec fn emit(s: LexState, token: TokenView) -> LexState {
    LexState { tokens: s.tokens.push(token), ..s }
}

/// The state in another mode, with the place moved one column on.
pub open spec fn go(s: LexState, mode: LexMode) -> Step {
    Step { state: LexState { mode, position: right(s.position), ..s }, error: None }
}

/// The state left as it is, and the character refused at the current place.
pub open spec fn refuse(s: LexState, c: char) -> Step {
    Step { state: s, error: Some(TokenizerError::UnexpectedCharacter(s.position, c)) }
}

/// A character between tokens.
pub open spec fn step_ready(s: LexState, c: char) -> Step {
    let ready = LexState { mode: LexMode::Ready, ..s };
    if c == ' ' || c == '\t' || c == '\r' {
        go(ready, LexMode::Ready)
    } else if c == '\n' {
        Step {
            state: LexState {
                position: below(s.position),
                ..emit(ready, TokenView::Newline(s.position))
            },
            error: None,
        }
    } else if is_digit(c) {
        go(ready, LexMode::Number(seq![c], s.position))
    } else if c == '_' || is_letter(c) {
        go(ready, LexMode::Identifier(seq![c], s.position))
    } else if punctuator(c, s.position) is Some {
        go(emit(ready, punctuator(c, s.position).unwrap()), LexMode::Ready)
    } else if c == ';' {
        go(ready, LexMode::Comment)
    } else if c == '"' {
        go(ready, LexMode::Text(Seq::empty(), s.position))
    } else {
        refuse(ready, c)
    }
}

/// A character after the text `buf` of a number that began at `p`. The
/// character that ends the number is then read again as one between tokens.
pub open spec fn step_number(s: LexState, buf: Seq<char>, p: Position, c: char) -> Step {
    if is_number_char(c) {
        go(s, LexMode::Number(buf.push(c), p))
    } else if ends_number(c) {
        step_ready(emit(s, TokenView::Number(buf, p)), c)
    } else {
        refuse(s, c)
    }
}

/// A character after the text `buf` of a word that began at `p`. The
/// character that ends the word is then read again as one between tokens.
pub open spec fn step_identifier(s: LexState, buf: Seq<char>, p: Position, c: char) -> Step {
    if is_identifier_char(c) {
        go(s, LexMode::Identifier(buf.push(c), p))
    } else {
        step_ready(emit(s, categorize(buf, p)), c)
    }
}

/// A character within a string that began at `p` and holds `buf` so far.
pub open spec fn step_text(s: LexState, buf: Seq<char>, p: Position, c: char) -> Step {
    if c == '"' {
        go(emit(s, TokenView::String(buf, p)), LexMode::Ready)
    } else if c == '\\' {
        go(s, LexMode::Escape(buf, p))
    } else if c == '\n' {
        refuse(s, c)
    } else {
        go(s, LexMode::Text(buf.push(c), p))
    }
}

/// The character after a backslash within a string.
pub open spec fn step_escape(s: LexState, buf: Seq<char>, p: Position, c: char) -> Step {
    match escaped(c) {
        Some(e) => go(s, LexMode::Text(buf.push(e), p)),
        None => refuse(s, c),
    }
}

/// A character within a comment, which runs to the end of its line.
pub open spec fn step_comment(s: LexState, c: char) -> Step {
    if c == '\n' {
        Step {
            state: LexState {
                position: below(s.position),
                mode: LexMode::Ready,
                ..emit(s, TokenView::Newline(s.position))
            },
            error: None,
        }
    } else {
        go(s, LexMode::Comment)
    }
}

/// The lexer's move on one character.
pub open spec fn step(s: LexState, c: char) -> Step {
    match s.mode {
        LexMode::Ready => step_ready(s, c),
        LexMode::Number(buf, p) => step_number(s, buf, p, c),
        LexMode::Identifier(buf, p) => step_identifier(s, buf, p, c),
        LexMode::Text(buf, p) => step_text(s, buf, p, c),
        LexMode::Escape(buf, p) => step_escape(s, buf, p, c),
        LexMode::Comment => step_comment(s, c),
    }
}

/// The lexer's moves on a text, up to the first character that it refuses.
pub open spec fn run(s: LexState, text: Seq<char>) -> Step
    decreases text.len(),
{
    if text.len() == 0 {
        Step { state: s, error: None }
    } else {
        let before = run(s, text.drop_last());
        if before.error is Some {
            before
        } else {
            step(before.state, text.last())
        }
    }
}

/// The state at the end of the input: a pending number, word or string is
/// given as a token, a comment is dropped.
pub open spec fn flushed(s: LexState) -> LexState {
    let ready = LexState { mode: LexMode::Ready, ..s };
    match s.mode {
        LexMode::Ready => ready,
        LexMode::Number(buf, p) => emit(ready, TokenView::Number(buf, p)),
        LexMode::Identifier(buf, p) => emit(ready, categorize(buf, p)),
        LexMode::Text(buf, p) => emit(ready, TokenView::String(buf, p)),
        LexMode::Escape(buf, p) => emit(ready, TokenView::String(buf, p)),
        LexMode::Comment => ready,
    }
}

/// The state before any input: no token, the first place, nothing pending.
pub open spec fn start() -> LexState {
    LexState {
        tokens: Seq::empty(),
        position: Position { row: 1, column: 1 },
        mode: LexMode::Ready,
    }
}

/// The tokens of a source text, or the first character that is refused.
pub open spec fn lex(text: Seq<char>) -> Result<Seq<TokenView>, TokenizerError> {
    let end = run(start(), text);
    match end.error {
        Some(e) => Err(e),
        None => Ok(flushed(end.state).tokens),
    }
}

/// Once a character is refused, the text after it changes nothing.
pub proof fn lemma_run_error_stays(s: LexState, text: Seq<char>, k: int)
    requires
        0 <= k <= text.len(),
        run(s, text.take(k)).error is Some,
    ensures
        run(s, text) == run(s, text.take(k)),
    decreases text.len() - k,
{
    if k < text.len() {
        assert(text.take(k + 1).drop_last() =~= text.take(k));
        lemma_run_error_stays(s, text, k + 1);
    } else {
        assert(text.take(k) =~= text);
    }
}

/// At the end of the input every pending number, word or string gives
/// exactly one token, and a comment or nothing pending gives none; the lexer
/// is then between tokens.
pub proof fn lemma_flush_gives_pending(s: LexState)
    ensures
        flushed(s).mode is Ready,
        flushed(s).position == s.position,
        s.mode is Ready || s.mode is Comment ==> flushed(s).tokens == s.tokens,
        !(s.mode is Ready || s.mode is Comment) ==> flushed(s).tokens.len() == s.tokens.len() + 1
            && flushed(s).tokens.drop_last() == s.tokens,
{
    if !(s.mode is Ready || s.mode is Comment) {
        assert(flushed(s).tokens.drop_last() =~= s.tokens);
    }
}

/// Every token that the lexer gives is well formed, once those before it
/// are.
pub proof fn lemma_step_keeps_tokens_wf(s: LexState, c: char)
    requires
        forall|i: int| 0 <= i < s.tokens.len() ==> (#[trigger] s.tokens[i]).wf(),
    ensures
        forall|i: int|
            0 <= i < step(s, c).state.tokens.len() ==> (#[trigger] step(s, c).state.tokens[i]).wf(),
{
    lemma_categorize_wf();
}

/// A word never stands for a special function register that does not
/// exist.
pub proof fn lemma_categorize_wf()
    ensures
        forall|word: Seq<char>, p: Position| (#[trigger] categorize(word, p)).wf(),
{
}

/// The state of the lexer's buffer.
enum TokenizerState {
    Ready,
    ReadingNumber(Vec<char>, Position),
    ReadingIdentifier(Vec<char>, Position),
    ReadingString(Vec<char>, Position),
    ReadingStringEscape(Vec<char>, Position),
    ReadingComment,
}

impl View for TokenizerState {
    type V = LexMode;

    closed spec fn view(&self) -> LexMode {
        match *self {
            TokenizerState::Ready => LexMode::Ready,
            TokenizerState::ReadingNumber(v, p) => LexMode::Number(v@, p),
            TokenizerState::ReadingIdentifier(v, p) => LexMode::Identifier(v@, p),
            TokenizerState::ReadingString(v, p) => LexMode::Text(v@, p),
            TokenizerState::ReadingStringEscape(v, p) => LexMode::Escape(v@, p),
            TokenizerState::ReadingComment => LexMode::Comment,
        }
    }
}

/// The lexer. Characters go in one at a time; `flush` ends the input.
pub struct Tokenizer {
    tokens: Vec<Token>,
    cur_pos: Position,
    state: TokenizerState,
}

impl View for Tokenizer {
    type V = LexState;

    closed spec fn view(&self) -> LexState {
        LexState { tokens: token_views(self.tokens@), position: self.cur_pos, mode: self.state@ }
    }
}

/// What a caller gets back: nothing, or the refused character.
pub open spec fn outcome(error: Option<TokenizerError>) -> Result<(), TokenizerError> {
    match error {
        Some(e) => Err(e),
        None => Ok(()),
    }
}

/// Whether the place can still move one column on and one row down.
pub open spec fn has_room(p: Position) -> bool {
    p.column < usize::MAX && p.row < usize::MAX
}

impl Tokenizer {
    pub fn new() -> (tokenizer: Tokenizer)
        ensures
            tokenizer@ == start(),
    {
        let tokenizer = Tokenizer {
            tokens: Vec::new(),
            cur_pos: Position { row: 1, column: 1 },
            state: TokenizerState::Ready,
        };
        assert(tokenizer@.tokens =~= Seq::<TokenView>::empty());
        tokenizer
    }

    /// The tokens given so far.
    pub fn get_tokens(self) -> (tokens: Vec<Token>)
        ensures
            token_views(tokens@) == self@.tokens,
    {
        self.tokens
    }

    /// The buffer of a token that begins with `c`.
    fn begin(c: char) -> (v: Vec<char>)
        ensures
            v@ == seq![c],
    {
        let mut v: Vec<char> = Vec::new();
        v.push(c);
        assert(v@ =~= seq![c]);
        v
    }

    fn advance(&mut self)
        requires
            old(self).cur_pos.column < usize::MAX,
        ensures
            final(self).cur_pos == right(old(self).cur_pos),
            final(self).tokens == old(self).tokens,
            final(self).state == old(self).state,
    {
        self.cur_pos.column += 1;
    }

    fn newline(&mut self)
        requires
            old(self).cur_pos.row < usize::MAX,
        ensures
            final(self).cur_pos == below(old(self).cur_pos),
            final(self).tokens == old(self).tokens,
            final(self).state == old(self).state,
    {
        self.cur_pos.column = 1;
        self.cur_pos.row += 1;
    }

    fn emit(&mut self, token: Token)
        ensures
            final(self)@ == emit(old(self)@, token@),
            final(self).cur_pos == old(self).cur_pos,
            final(self).state == old(self).state,
    {
        self.tokens.push(token);
        assert(token_views(self.tokens@) =~= token_views(old(self).tokens@).push(token@));
    }

    fn handle_ready(&mut self, c: char) -> (r: Result<(), TokenizerError>)
        requires
            has_room(old(self).cur_pos),
        ensures
            final(self)@ == step_ready(old(self)@, c).state,
            r == outcome(step_ready(old(self)@, c).error),
    {
        self.state = TokenizerState::Ready;
        let here = self.cur_pos;
        if c == ' ' || c == '\t' || c == '\r' {
            self.advance();
            Ok(())
        } else if c == '\n' {
            self.emit(Token::Newline(here));
            self.newline();
            Ok(())
        } else if c >= '0' && c <= '9' {
            self.state = TokenizerState::ReadingNumber(Self::begin(c), here);
            self.advance();
            Ok(())
        } else if c == '_' || (c >= 'a' && c <= 'z') || (c >= 'A' && c <= 'Z') {
            self.state = TokenizerState::ReadingIdentifier(Self::begin(c), here);
            self.advance();
            Ok(())
        } else if c == ':' {
            self.emit(Token::Colon(here));
            self.advance();
            Ok(())
        } else if c == ',' {
            self.emit(Token::Comma(here));
            self.advance();
            Ok(())
        } else if c == '.' {
            self.emit(Token::Dot(here));
            self.advance();
            Ok(())
        } else if c == '@' {
            self.emit(Token::At(here));
            self.advance();
            Ok(())
        } else if c == '+' {
            self.emit(Token::Plus(here));
            self.advance();
            Ok(())
        } else if c == '[' {
            self.emit(Token::LeftBracket(here));
            self.advance();
            Ok(())
        } else if c == ']' {
            self.emit(Token::RightBracket(here));
            self.advance();
            Ok(())
        } else if c == ';' {
            self.state = TokenizerState::ReadingComment;
            self.advance();
            Ok(())
        } else if c == '"' {
            self.state = TokenizerState::ReadingString(Vec::new(), here);
            self.advance();
            Ok(())
        } else {
            Err(TokenizerError::UnexpectedCharacter(here, c))
        }
    }

    fn handle_comment(&mut self, c: char) -> (r: Result<(), TokenizerError>)
        requires
            has_room(old(self).cur_pos),
            old(self).state@ is Comment,
        ensures
            final(self)@ == step_comment(old(self)@, c).state,
            r == outcome(step_comment(old(self)@, c).error),
    {
        if c == '\n' {
            let here = self.cur_pos;
            self.emit(Token::Newline(here));
            self.state = TokenizerState::Ready;
            self.newline();
            Ok(())
        } else {
            self.state = TokenizerState::ReadingComment;
            self.advance();
            Ok(())
        }
    }

    fn handle_number(&mut self, v: Vec<char>, p: Position, c: char) -> (r: Result<
        (),
        TokenizerError,
    >)
        requires
            has_room(old(self).cur_pos),
        ensures
            final(self)@ == step_number(
                LexState { mode: LexMode::Number(v@, p), ..old(self)@ },
                v@,
                p,
                c,
            ).state,
            r == outcome(
                step_number(
                    LexState { mode: LexMode::Number(v@, p), ..old(self)@ },
                    v@,
                    p,
                    c,
                ).error,
            ),
    {
        let mut v = v;
        if (c >= '0' && c <= '9') || (c >= 'a' && c <= 'f') || (c >= 'A' && c <= 'F') || c == 'h'
            || c == 'H' || c == 'o' || c == 'O' {
            v.push(c);
            self.state = TokenizerState::ReadingNumber(v, p);
            self.advance();
            Ok(())
        } else if c == ' ' || c == '\t' || c == '\r' || c == '\n' || c == ',' || c == '+' || c
            == '-' || c == '*' || c == '/' || c == ';' {
            self.emit(Token::Number(string_of(&v), p));
            self.handle_ready(c)
        } else {
            self.state = TokenizerState::ReadingNumber(v, p);
            Err(TokenizerError::UnexpectedCharacter(self.cur_pos, c))
        }
    }

    fn categorize_identifier(v: Vec<char>, p: Position) -> (token: Token)
        ensures
            token@ == categorize(v@, p),
            token@.wf(),
    {
        let s = string_of(&v);
        if let Ok(kw) = Keyword::from_str(s.as_str()) {
            Token::Keyword(kw, p)
        } else if let Ok(dir) = DirectLocation::from_str(s.as_str()) {
            Token::DirectLocation(dir, p)
        } else if let Ok(oper) = Operator::from_str(s.as_str()) {
            Token::Operator(oper, p)
        } else {
            Token::Identifier(s, p)
        }
    }

    fn handle_identifier(&mut self, v: Vec<char>, p: Position, c: char) -> (r: Result<
        (),
        TokenizerError,
    >)
        requires
            has_room(old(self).cur_pos),
        ensures
            final(self)@ == step_identifier(
                LexState { mode: LexMode::Identifier(v@, p), ..old(self)@ },
                v@,
                p,
                c,
            ).state,
            r == outcome(
                step_identifier(
                    LexState { mode: LexMode::Identifier(v@, p), ..old(self)@ },
                    v@,
                    p,
                    c,
                ).error,
            ),
    {
        let mut v = v;
        if (c >= 'a' && c <= 'z') || (c >= 'A' && c <= 'Z') || (c >= '0' && c <= '9') || c == '_' {
            v.push(c);
            self.state = TokenizerState::ReadingIdentifier(v, p);
            self.advance();
            Ok(())
        } else {
            self.emit(Self::categorize_identifier(v, p));
            self.handle_ready(c)
        }
    }

    fn handle_string(&mut self, v: Vec<char>, p: Position, c: char) -> (r: Result<
        (),
        TokenizerError,
    >)
        requires
            has_room(old(self).cur_pos),
        ensures
            final(self)@ == step_text(
                LexState { mode: LexMode::Text(v@, p), ..old(self)@ },
                v@,
                p,
                c,
            ).state,
            r == outcome(
                step_text(LexState { mode: LexMode::Text(v@, p), ..old(self)@ }, v@, p, c).error,
            ),
    {
        let mut v = v;
        if c == '"' {
            self.emit(Token::String(string_of(&v), p));
            self.state = TokenizerState::Ready;
            self.advance();
            Ok(())
        } else if c == '\\' {
            self.state = TokenizerState::ReadingStringEscape(v, p);
            self.advance();
            Ok(())
        } else if c == '\n' {
            self.state = TokenizerState::ReadingString(v, p);
            Err(TokenizerError::UnexpectedCharacter(self.cur_pos, '\n'))
        } else {
            v.push(c);
            self.state = TokenizerState::ReadingString(v, p);
            self.advance();
            Ok(())
        }
    }

    fn handle_string_escape(&mut self, v: Vec<char>, p: Position, c: char) -> (r: Result<
        (),
        TokenizerError,
    >)
        requires
            has_room(old(self).cur_pos),
        ensures
            final(self)@ == step_escape(
                LexState { mode: LexMode::Escape(v@, p), ..old(self)@ },
                v@,
                p,
                c,
            ).state,
            r == outcome(
                step_escape(
                    LexState { mode: LexMode::Escape(v@, p), ..old(self)@ },
                    v@,
                    p,
                    c,
                ).error,
            ),
    {
        let mut v = v;
        if c == 'r' {
            v.push('\r');
        } else if c == 'n' {
            v.push('\n');
        } else if c == 't' {
            v.push('\t');
        } else if c == '\\' {
            v.push('\\');
        } else if c == '"' {
            v.push('"');
        } else {
            self.state = TokenizerState::ReadingStringEscape(v, p);
            return Err(TokenizerError::UnexpectedCharacter(self.cur_pos, c));
        }
        self.advance();
        self.state = TokenizerState::ReadingString(v, p);
        Ok(())
    }

    /// Takes one character. A refused character leaves the lexer as it was,
    /// but for the number or word that the character had just ended.
    pub fn consume_char(&mut self, c: char) -> (r: Result<(), TokenizerError>)
        requires
            has_room(old(self)@.position),
        ensures
            final(self)@ == step(old(self)@, c).state,
            r == outcome(step(old(self)@, c).error),
    {
        let mut state = TokenizerState::Ready;
        std::mem::swap(&mut self.state, &mut state);
        match state {
            TokenizerState::Ready => self.handle_ready(c),
            TokenizerState::ReadingNumber(v, p) => self.handle_number(v, p, c),
            TokenizerState::ReadingIdentifier(v, p) => self.handle_identifier(v, p, c),
            TokenizerState::ReadingString(v, p) => self.handle_string(v, p, c),
            TokenizerState::ReadingStringEscape(v, p) => self.handle_string_escape(v, p, c),
            TokenizerState::ReadingComment => {
                self.state = TokenizerState::ReadingComment;
                self.handle_comment(c)
            },
        }
    }

    /// Takes the characters of a text in order, up to the first that is
    /// refused.
    pub fn consume_text(&mut self, text: &str) -> (r: Result<(), TokenizerError>)
        requires
            old(self)@.position.column + text@.len() < usize::MAX,
            old(self)@.position.row + text@.len() < usize::MAX,
        ensures
            final(self)@ == run(old(self)@, text@).state,
            r == outcome(run(old(self)@, text@).error),
    {
        let chars = chars_of(text);
        let ghost begin = self@;
        let mut i: usize = 0;
        assert(chars@.take(0) =~= Seq::<char>::empty());
        while i < chars.len()
            invariant
                i <= chars.len(),
                chars@ == text@,
                begin == old(self)@,
                run(begin, chars@.take(i as int)) == (Step { state: self@, error: None }),
                self@.position.column <= begin.position.column + i,
                self@.position.row <= begin.position.row + i,
                begin.position.column + text@.len() < usize::MAX,
                begin.position.row + text@.len() < usize::MAX,
            decreases chars.len() - i,
        {
            proof {
                assert(chars@.take(i + 1).drop_last() =~= chars@.take(i as int));
                assert(chars@.take(i + 1).last() == chars[i as int]);
            }
            let ghost before = self@;
            let taken = self.consume_char(chars[i]);
            assert(run(begin, chars@.take(i + 1)) == step(before, chars[i as int]));
            match taken {
                Ok(_) => {},
                Err(e) => {
                    proof {
                        lemma_run_error_stays(begin, chars@, i + 1);
                    }
                    return Err(e);
                },
            }
            i += 1;
        }
        assert(chars@.take(i as int) =~= chars@);
        Ok(())
    }

    /// Ends the input: a pending number, word or string becomes a token.
    pub fn flush(&mut self)
        ensures
            final(self)@ == flushed(old(self)@),
    {
        let mut state = TokenizerState::Ready;
        std::mem::swap(&mut self.state, &mut state);
        match state {
            TokenizerState::Ready => {},
            TokenizerState::ReadingNumber(v, p) => {
                self.emit(Token::Number(string_of(&v), p));
            },
            TokenizerState::ReadingIdentifier(v, p) => {
                self.emit(Self::categorize_identifier(v, p));
            },
            TokenizerState::ReadingString(v, p) => {
                self.emit(Token::String(string_of(&v), p));
            },
            TokenizerState::ReadingStringEscape(v, p) => {
                self.emit(Token::String(string_of(&v), p));
            },
            TokenizerState::ReadingComment => {},
        }
    }

    /// The tokens of a source text, or the first character that is refused.
    pub fn tokenize(text: &str) -> (r: Result<Vec<Token>, TokenizerError>)
        requires
            text@.len() + 1 < usize::MAX,
        ensures
            match r {
                Ok(tokens) => lex(text@) == Ok::<Seq<TokenView>, TokenizerError>(
                    token_views(tokens@),
                ) && forall|i: int| 0 <= i < tokens.len() ==> (#[trigger] tokens[i]@).wf(),
                Err(e) => lex(text@) == Err::<Seq<TokenView>, TokenizerError>(e),
            },
    {
        let mut tokenizer = Tokenizer::new();
        tokenizer.consume_text(text)?;
        tokenizer.flush();
        let tokens = tokenizer.get_tokens();
        proof {
            lemma_run_keeps_tokens_wf(start(), text@);
            lemma_flush_keeps_tokens_wf(run(start(), text@).state);
            assert forall|i: int| 0 <= i < tokens.len() implies (#[trigger] tokens[i]@).wf() by {
                assert(token_views(tokens@)[i] == tokens[i]@);
            }
        }
        Ok(tokens)
    }
}

/// The token that the end of the input gives is well formed as well.
pub proof fn lemma_flush_keeps_tokens_wf(s: LexState)
    requires
        forall|i: int| 0 <= i < s.tokens.len() ==> (#[trigger] s.tokens[i]).wf(),
    ensures
        forall|i: int| 0 <= i < flushed(s).tokens.len() ==> (#[trigger] flushed(s).tokens[i]).wf(),
{
    lemma_categorize_wf();
}

/// Every token that the lexer gives on a text is well formed, once those
/// before it are.
pub proof fn lemma_run_keeps_tokens_wf(s: LexState, text: Seq<char>)
    requires
        forall|i: int| 0 <= i < s.tokens.len() ==> (#[trigger] s.tokens[i]).wf(),
    ensures
        forall|i: int|
            0 <= i < run(s, text).state.tokens.len() ==> (#[trigger] run(
                s,
                text,
            ).state.tokens[i]).wf(),
    decreases text.len(),
{
    if text.len() > 0 {
        lemma_run_keeps_tokens_wf(s, text.drop_last());
        let before = run(s, text.drop_last());
        if before.error is None {
            lemma_step_keeps_tokens_wf(before.state, text.last());
        }
    }
}

} // verus!
