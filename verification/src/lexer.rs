//! The lexer: consumes a byte buffer and produces one classified token per
//! call, or an end-of-input marker. Handles whitespace, comments, and all
//! multi-character operator disambiguation. It never fails: any byte sequence
//! it cannot classify yields the unrecognized sentinel kind, and every call
//! that is not at end of input consumes at least one byte.

use vstd::prelude::*;
use vstd::string::StrSliceExecFns;
use vstd::string::StringSliceAdditionalSpecFns;
use crate::token::{Token, TokenKind, TokenKindV, TokenV, Keyword};
use crate::scan::{
    is_space_b, is_letter_b, is_digit_b, is_nible_b,
    spaces_end, line_end, block_end, trivia_end,
    letters_end, num_end, bits_end, nibles_end,
    str_scan, word_token, next_token,
    angle_open_token, angle_close_token, equal_token, exclamation_token,
    and_token, or_token, question_token, period_token, string_token,
    lemma_spaces_end, lemma_spaces_end_idem, lemma_line_end, lemma_block_end,
    lemma_trivia_end, lemma_next_token, lemma_ascii_decode,
};

verus! {

/// Mathematical state of a lexer: the source bytes, the read cursor, the
/// start of the token being assembled, and the byte last consumed.
pub struct LexerV {
    pub input: Seq<u8>,
    pub position: int,
    pub commited: int,
    pub last: u8,
}

/// The lexer. Owns a copy of the source bytes and a read cursor; repeated
/// calls of [`Lexer::tokenize`] consume the buffer left to right.
pub struct Lexer {
    input: Vec<u8>,
    position: usize,
    commited_position: usize,
    last_char: u8,
}

impl View for Lexer {
    type V = LexerV;

    closed spec fn view(&self) -> LexerV {
        LexerV {
            input: self.input@,
            position: self.position as int,
            commited: self.commited_position as int,
            last: self.last_char,
        }
    }
}

impl Lexer {
    /// The cursor invariant: the committed position never passes the read
    /// position, which never passes the end of the input.
    pub open spec fn wf(&self) -> bool {
        0 <= self@.commited <= self@.position <= self@.input.len()
            && self@.input.len() <= usize::MAX
    }

    pub fn new(input: &str) -> (r: Self)
        ensures
            r.wf(),
            r@.input == input.spec_bytes(),
            r@.position == 0,
            r@.commited == 0,
    {
        let input_vec = input.as_bytes_vec();
        proof {
            vstd::std_specs::vec::axiom_spec_len(&input_vec);
        }
        Self {
            input: input_vec,
            position: 0,
            commited_position: 0,
            last_char: 0,
        }
    }

    /// Returns the next byte without consuming it.
    pub fn peek(&self) -> (r: Option<u8>)
        ensures
            r == (if self@.position < self@.input.len() {
                Some(self@.input[self@.position])
            } else {
                Option::<u8>::None
            }),
    {
        self.peekn(0)
    }

    /// Returns the byte `n` places ahead without consuming anything.
    pub fn peekn(&self, n: usize) -> (r: Option<u8>)
        requires
            self@.position + n <= usize::MAX,
        ensures
            r == (if self@.position + n < self@.input.len() {
                Some(self@.input[self@.position + n])
            } else {
                Option::<u8>::None
            }),
    {
        if self.position + n >= self.input.len() {
            None
        } else {
            Some(self.input[self.position + n])
        }
    }

    /// Consumes and returns the next byte, remembering it as the last byte
    /// read; at end of input returns nothing and clears that memory.
    pub fn read(&mut self) -> (r: Option<u8>)
        requires
            old(self).wf(),
        ensures
            final(self).wf(),
            final(self)@.input == old(self)@.input,
            final(self)@.commited == old(self)@.commited,
            if old(self)@.position < old(self)@.input.len() {
                &&& r == Some(old(self)@.input[old(self)@.position])
                &&& final(self)@.position == old(self)@.position + 1
                &&& final(self)@.last == old(self)@.input[old(self)@.position]
            } else {
                &&& r is None
                &&& final(self)@.position == old(self)@.position
                &&& final(self)@.last == 0
            },
    {
        if self.position >= self.input.len() {
            self.last_char = 0;
            None
        } else {
            let pos = self.position;
            self.position = pos + 1;
            self.last_char = self.input[pos];
            Some(self.input[pos])
        }
    }

    /// Marks everything read so far as belonging to the token just produced.
    fn commit(&mut self)
        requires
            old(self).wf(),
        ensures
            final(self).wf(),
            final(self)@.input == old(self)@.input,
            final(self)@.position == old(self)@.position,
            final(self)@.last == old(self)@.last,
            final(self)@.commited == old(self)@.position,
    {
        self.commited_position = self.position;
    }

    /// Consumes the run of whitespace at the cursor.
    fn read_spaces(&mut self) -> (count: usize)
        requires
            old(self).wf(),
        ensures
            final(self).wf(),
            final(self)@.input == old(self)@.input,
            final(self)@.commited == old(self)@.commited,
            final(self)@.position == spaces_end(old(self)@.input, old(self)@.position),
            count == final(self)@.position - old(self)@.position,
    {
        let ghost s = self@.input;
        let ghost p0 = self@.position;
        let mut count: usize = 0;
        loop
            invariant
                self.wf(),
                self@.input == s,
                self@.commited == old(self)@.commited,
                p0 == old(self)@.position,
                0 <= p0 <= self@.position,
                count == self@.position - p0,
                spaces_end(s, self@.position) == spaces_end(s, p0),
            ensures
                self@.position == spaces_end(s, p0),
            decreases s.len() - self@.position,
        {
            match self.peek() {
                Some(c) => {
                    if is_space(c) {
                        self.read();
                        count = count + 1;
                    } else {
                        break;
                    }
                },
                None => {
                    break;
                },
            }
        }
        count
    }

    /// Counts the whitespace bytes starting `offset` places ahead of the
    /// cursor, consuming nothing.
    fn peek_spaces(&self, offset: usize) -> (count: usize)
        requires
            self.wf(),
            self@.position + offset <= usize::MAX,
        ensures
            self@.position + offset <= self@.input.len()
                ==> count == spaces_end(self@.input, self@.position + offset)
                    - (self@.position + offset),
            self@.position + offset > self@.input.len() ==> count == 0,
    {
        let ghost s = self@.input;
        let n = self.input.len();
        if offset > n || self.position > n - offset {
            return 0;
        }
        let mut k = self.position + offset;
        let ghost k0 = k as int;
        loop
            invariant
                n == s.len(),
                n == self@.input.len(),
                s == self@.input,
                0 <= k0 <= k <= n,
                spaces_end(s, k as int) == spaces_end(s, k0),
            ensures
                k == spaces_end(s, k0),
            decreases n - k,
        {
            if k >= n {
                break;
            }
            if !is_space_at(&self.input, k) {
                break;
            }
            k = k + 1;
        }
        k - (self.position + offset)
    }

    /// Consumes bytes through the end of the current line, or to end of
    /// input.
    fn read_till_eol(&mut self)
        requires
            old(self).wf(),
        ensures
            final(self).wf(),
            final(self)@.input == old(self)@.input,
            final(self)@.commited == old(self)@.commited,
            final(self)@.position == line_end(old(self)@.input, old(self)@.position),
    {
        let ghost s = self@.input;
        let ghost p0 = self@.position;
        loop
            invariant_except_break
                line_end(s, self@.position) == line_end(s, p0),
            invariant
                self.wf(),
                self@.input == s,
                self@.commited == old(self)@.commited,
                0 <= p0 <= self@.position,
            ensures
                self@.position == line_end(s, p0),
            decreases s.len() - self@.position,
        {
            match self.read() {
                Some(c) => {
                    if c == 10 {
                        break;
                    }
                },
                None => {
                    break;
                },
            }
        }
    }

    /// Consumes bytes through the `*/` that closes the current block
    /// comment, or to end of input.
    fn read_till_blockcomment_close(&mut self)
        requires
            old(self).wf(),
        ensures
            final(self).wf(),
            final(self)@.input == old(self)@.input,
            final(self)@.commited == old(self)@.commited,
            final(self)@.position == block_end(old(self)@.input, old(self)@.position),
    {
        let ghost s = self@.input;
        let ghost p0 = self@.position;
        loop
            invariant_except_break
                block_end(s, self@.position) == block_end(s, p0),
            invariant
                self.wf(),
                self@.input == s,
                self@.commited == old(self)@.commited,
                0 <= p0 <= self@.position,
            ensures
                self@.position == block_end(s, p0),
            decreases s.len() - self@.position,
        {
            match self.read() {
                Some(c) => {
                    if c == 42 {
                        if let Some(cc) = self.peek() {
                            if cc == 47 {
                                self.read();
                                break;
                            }
                        }
                    }
                },
                None => {
                    break;
                },
            }
        }
    }

    /// Consumes the comment at the cursor, if one starts there, and reports
    /// whether it did.
    fn read_comments(&mut self) -> (consumed: bool)
        requires
            old(self).wf(),
        ensures
            final(self).wf(),
            final(self)@.input == old(self)@.input,
            final(self)@.commited == old(self)@.commited,
            ({
                let s = old(self)@.input;
                let p = old(self)@.position;
                if p + 1 < s.len() && s[p] == 47 && s[p + 1] == 47 {
                    consumed && final(self)@.position == line_end(s, p + 2)
                } else if p + 1 < s.len() && s[p] == 47 && s[p + 1] == 42 {
                    consumed && final(self)@.position == block_end(s, p + 2)
                } else {
                    !consumed && final(self)@.position == p
                }
            }),
    {
        if let Some(c) = self.peek() {
            if c == 47 {
                if let Some(cc) = self.peekn(1) {
                    if cc == 47 {
                        self.read();
                        self.read();
                        self.read_till_eol();
                        return true;
                    } else if cc == 42 {
                        self.read();
                        self.read();
                        self.read_till_blockcomment_close();
                        return true;
                    }
                }
            }
        }
        false
    }
}

impl Lexer {
    /// Dispatch after `!`: a following `=` makes `!=`, else plain negation.
    fn excalmation(&mut self) -> (r: Option<TokenKind>)
        requires
            old(self).wf(),
        ensures
            final(self).wf(),
            final(self)@.input == old(self)@.input,
            final(self)@.commited == old(self)@.commited,
            ({
                let st = exclamation_token(old(self)@.input, old(self)@.position);
                r matches Some(k) && k@ == st.kind && final(self)@.position == st.end
            }),
    {
        if let Some(c) = self.peek() {
            match c {
                61 => {
                    self.read();
                    Some(TokenKind::NotEqual)
                },
                _ => Some(TokenKind::Exclamation),
            }
        } else {
            Some(TokenKind::Exclamation)
        }
    }

    /// Dispatch after `<`: `<=`, `<<`, the resource-move family `<-`, `<->`
    /// and `<-!`, or a plain angle bracket.
    fn angle_open(&mut self) -> (r: Option<TokenKind>)
        requires
            old(self).wf(),
        ensures
            final(self).wf(),
            final(self)@.input == old(self)@.input,
            final(self)@.commited == old(self)@.commited,
            ({
                let st = angle_open_token(old(self)@.input, old(self)@.position);
                r matches Some(k) && k@ == st.kind && final(self)@.position == st.end
            }),
    {
        if let Some(c) = self.peek() {
            match c {
                61 => {
                    self.read();
                    Some(TokenKind::LessThanOrEqual)
                },
                60 => {
                    self.read();
                    Some(TokenKind::BitwiseShiftLeft)
                },
                45 => {
                    self.read();
                    if let Some(cc) = self.peek() {
                        if cc == 62 {
                            self.read();
                            return Some(TokenKind::Swap);
                        }
                        if cc == 33 {
                            self.read();
                            return Some(TokenKind::MoveForce);
                        }
                    }
                    Some(TokenKind::Move)
                },
                _ => Some(TokenKind::AngleOpen),
            }
        } else {
            Some(TokenKind::AngleOpen)
        }
    }

    /// Dispatch after `>`: `>=`, `>>`, or a plain angle bracket.
    fn angle_close(&mut self) -> (r: Option<TokenKind>)
        requires
            old(self).wf(),
        ensures
            final(self).wf(),
            final(self)@.input == old(self)@.input,
            final(self)@.commited == old(self)@.commited,
            ({
                let st = angle_close_token(old(self)@.input, old(self)@.position);
                r matches Some(k) && k@ == st.kind && final(self)@.position == st.end
            }),
    {
        if let Some(c) = self.peek() {
            match c {
                61 => {
                    self.read();
                    Some(TokenKind::GreaterThanOrEqual)
                },
                62 => {
                    self.read();
                    Some(TokenKind::BitwiseShiftRight)
                },
                _ => Some(TokenKind::AngleClose),
            }
        } else {
            Some(TokenKind::AngleClose)
        }
    }

    /// Dispatch after `=`: `==` or assignment.
    fn equal(&mut self) -> (r: Option<TokenKind>)
        requires
            old(self).wf(),
        ensures
            final(self).wf(),
            final(self)@.input == old(self)@.input,
            final(self)@.commited == old(self)@.commited,
            ({
                let st = equal_token(old(self)@.input, old(self)@.position);
                r matches Some(k) && k@ == st.kind && final(self)@.position == st.end
            }),
    {
        if let Some(c) = self.peek() {
            match c {
                61 => {
                    self.read();
                    Some(TokenKind::EqualTo)
                },
                _ => Some(TokenKind::Assign),
            }
        } else {
            Some(TokenKind::Assign)
        }
    }

    /// Dispatch after `&`: `&&` (logical) or bitwise-and.
    fn and(&mut self) -> (r: Option<TokenKind>)
        requires
            old(self).wf(),
        ensures
            final(self).wf(),
            final(self)@.input == old(self)@.input,
            final(self)@.commited == old(self)@.commited,
            ({
                let st = and_token(old(self)@.input, old(self)@.position);
                r matches Some(k) && k@ == st.kind && final(self)@.position == st.end
            }),
    {
        if let Some(c) = self.peek() {
            match c {
                38 => {
                    self.read();
                    Some(TokenKind::LogicalConjunction)
                },
                _ => Some(TokenKind::BitwiseAnd),
            }
        } else {
            Some(TokenKind::BitwiseAnd)
        }
    }

    /// Dispatch after `|`: `||` (logical) or bitwise-or.
    fn or(&mut self) -> (r: Option<TokenKind>)
        requires
            old(self).wf(),
        ensures
            final(self).wf(),
            final(self)@.input == old(self)@.input,
            final(self)@.commited == old(self)@.commited,
            ({
                let st = or_token(old(self)@.input, old(self)@.position);
                r matches Some(k) && k@ == st.kind && final(self)@.position == st.end
            }),
    {
        if let Some(c) = self.peek() {
            match c {
                124 => {
                    self.read();
                    Some(TokenKind::LogicalDisjunction)
                },
                _ => Some(TokenKind::BitwiseOr),
            }
        } else {
            Some(TokenKind::BitwiseOr)
        }
    }

    /// Dispatch after `?`: `??`, `?.`, or a plain question mark.
    fn question(&mut self) -> (r: Option<TokenKind>)
        requires
            old(self).wf(),
        ensures
            final(self).wf(),
            final(self)@.input == old(self)@.input,
            final(self)@.commited == old(self)@.commited,
            ({
                let st = question_token(old(self)@.input, old(self)@.position);
                r matches Some(k) && k@ == st.kind && final(self)@.position == st.end
            }),
    {
        if let Some(c) = self.peek() {
            match c {
                63 => {
                    self.read();
                    Some(TokenKind::QuestionDouble)
                },
                46 => {
                    self.read();
                    Some(TokenKind::QuestionDot)
                },
                _ => Some(TokenKind::Question),
            }
        } else {
            Some(TokenKind::Question)
        }
    }

    /// Dispatch after `.`: a dot only when no whitespace follows directly;
    /// a dot before whitespace is rejected as unrecognized, and that
    /// whitespace run is consumed with it.
    fn period(&mut self) -> (r: Option<TokenKind>)
        requires
            old(self).wf(),
        ensures
            final(self).wf(),
            final(self)@.input == old(self)@.input,
            final(self)@.commited == old(self)@.commited,
            ({
                let st = period_token(old(self)@.input, old(self)@.position);
                &&& final(self)@.position == st.end
                &&& (r matches Some(k) ==> k@ == st.kind)
                &&& (r is None ==> st.kind == TokenKindV::Unrecognized)
            }),
    {
        if self.read_spaces() == 0 {
            Some(TokenKind::Dot)
        } else {
            None
        }
    }

    /// One step of an escape sequence: consumes the byte after a backslash,
    /// if any, and returns its decoding; an unrecognized escape decodes to
    /// nothing and the caller keeps the backslash.
    fn read_escaped_char(&mut self) -> (r: Option<u8>)
        requires
            old(self).wf(),
        ensures
            final(self).wf(),
            final(self)@.input == old(self)@.input,
            final(self)@.commited == old(self)@.commited,
            ({
                let s = old(self)@.input;
                let p = old(self)@.position;
                if p < s.len() {
                    &&& final(self)@.position == p + 1
                    &&& r == (if s[p] == 110 {
                        Some(10u8)
                    } else if s[p] == 92 {
                        Some(92u8)
                    } else if s[p] == 34 {
                        Some(34u8)
                    } else {
                        Option::<u8>::None
                    })
                } else {
                    final(self)@.position == p && r is None
                }
            }),
    {
        if let Some(e) = self.peek() {
            self.read();
            match e {
                110 => Some(10),
                92 => Some(92),
                34 => Some(34),
                _ => None,
            }
        } else {
            None
        }
    }

    /// Scans a string literal body after the opening quote, decoding
    /// escapes, and classifies the result.
    fn double_quote(&mut self) -> (r: Option<TokenKind>)
        requires
            old(self).wf(),
        ensures
            final(self).wf(),
            final(self)@.input == old(self)@.input,
            final(self)@.commited == old(self)@.commited,
            ({
                let st = string_token(old(self)@.input, old(self)@.position);
                r matches Some(k) && k@ == st.kind && final(self)@.position == st.end
            }),
    {
        let ghost s = self@.input;
        let ghost p0 = self@.position;
        let mut chars: Vec<u8> = Vec::new();
        let mut closed = false;
        loop
            invariant_except_break
                closed == false,
                str_scan(s, p0).bytes == chars@ + str_scan(s, self@.position).bytes,
                str_scan(s, p0).end == str_scan(s, self@.position).end,
                str_scan(s, p0).closed == str_scan(s, self@.position).closed,
            invariant
                self.wf(),
                self@.input == s,
                self@.commited == old(self)@.commited,
                0 <= p0 <= self@.position,
            ensures
                str_scan(s, p0).bytes == chars@,
                str_scan(s, p0).end == self@.position,
                str_scan(s, p0).closed == closed,
            decreases s.len() - self@.position,
        {
            let ghost p = self@.position;
            match self.peek() {
                None => {
                    proof {
                        assert(chars@ + str_scan(s, p).bytes =~= chars@);
                    }
                    break;
                },
                Some(c) => {
                    self.read();
                    if c == 92 {
                        match self.read_escaped_char() {
                            Some(e) => {
                                chars.push(e);
                                proof {
                                    assert(str_scan(s, p).bytes
                                        =~= seq![e] + str_scan(s, self@.position).bytes);
                                    assert(chars@ + str_scan(s, self@.position).bytes
                                        =~= str_scan(s, p0).bytes);
                                }
                            },
                            None => {
                                chars.push(92);
                                proof {
                                    assert(str_scan(s, p).bytes
                                        =~= seq![92u8] + str_scan(s, self@.position).bytes);
                                    assert(chars@ + str_scan(s, self@.position).bytes
                                        =~= str_scan(s, p0).bytes);
                                }
                            },
                        }
                    } else if c == 34 {
                        closed = true;
                        proof {
                            assert(str_scan(s, p).bytes =~= Seq::<u8>::empty());
                            assert(chars@ + str_scan(s, p).bytes =~= chars@);
                        }
                        break;
                    } else {
                        chars.push(c);
                        proof {
                            assert(str_scan(s, p).bytes
                                =~= seq![c] + str_scan(s, self@.position).bytes);
                            assert(chars@ + str_scan(s, self@.position).bytes
                                =~= str_scan(s, p0).bytes);
                        }
                    }
                },
            }
        }
        if !closed {
            return Some(TokenKind::DoubleQuote);
        }
        match string_from_utf8(chars) {
            Some(text) => Some(TokenKind::String(text)),
            None => Some(TokenKind::Unrecognized),
        }
    }

    /// One step of an identifier scan: consumes a letter or digit.
    fn read_letter(&mut self) -> (r: Option<u8>)
        requires
            old(self).wf(),
        ensures
            final(self).wf(),
            final(self)@.input == old(self)@.input,
            final(self)@.commited == old(self)@.commited,
            ({
                let s = old(self)@.input;
                let p = old(self)@.position;
                if p < s.len() && (is_letter_b(s[p]) || is_digit_b(s[p])) {
                    r == Some(s[p]) && final(self)@.position == p + 1
                } else {
                    r is None && final(self)@.position == p
                }
            }),
    {
        if let Some(c) = self.peek() {
            if Self::is_letter(c) || Self::is_decimal_digit(c) {
                self.read();
                return Some(c);
            }
        }
        None
    }

    /// One step of a binary-literal scan: consumes a `0` or `1`.
    fn read_bits(&mut self) -> (r: Option<u8>)
        requires
            old(self).wf(),
        ensures
            final(self).wf(),
            final(self)@.input == old(self)@.input,
            final(self)@.commited == old(self)@.commited,
            ({
                let s = old(self)@.input;
                let p = old(self)@.position;
                if p < s.len() && (s[p] == 48 || s[p] == 49) {
                    r == Some(s[p]) && final(self)@.position == p + 1
                } else {
                    r is None && final(self)@.position == p
                }
            }),
    {
        if let Some(c) = self.peek() {
            if c == 48 || c == 49 {
                self.read();
                return Some(c);
            }
        }
        None
    }

    /// One step of a hexadecimal-literal scan: consumes a hex digit.
    fn read_nibles(&mut self) -> (r: Option<u8>)
        requires
            old(self).wf(),
        ensures
            final(self).wf(),
            final(self)@.input == old(self)@.input,
            final(self)@.commited == old(self)@.commited,
            ({
                let s = old(self)@.input;
                let p = old(self)@.position;
                if p < s.len() && is_nible_b(s[p]) {
                    r == Some(s[p]) && final(self)@.position == p + 1
                } else {
                    r is None && final(self)@.position == p
                }
            }),
    {
        if let Some(c) = self.peek() {
            if Self::is_nible(c) {
                self.read();
                return Some(c);
            }
        }
        None
    }

    /// One step of a decimal-literal scan: consumes a digit, or a dot that
    /// is not directly followed by whitespace.
    fn read_numeric_or_dot(&mut self) -> (r: Option<u8>)
        requires
            old(self).wf(),
        ensures
            final(self).wf(),
            final(self)@.input == old(self)@.input,
            final(self)@.commited == old(self)@.commited,
            ({
                let s = old(self)@.input;
                let p = old(self)@.position;
                if p < s.len() && is_digit_b(s[p]) {
                    r == Some(s[p]) && final(self)@.position == p + 1
                } else if p < s.len() && s[p] == 46
                    && !(p + 1 < s.len() && is_space_b(s[p + 1])) {
                    r == Some(46u8) && final(self)@.position == p + 1
                } else {
                    r is None && final(self)@.position == p
                }
            }),
    {
        let ghost s = self@.input;
        if let Some(c) = self.peek() {
            if Self::is_decimal_digit(c) {
                self.read();
                return Some(c);
            }
            if c == 46 {
                let ghost p = self@.position;
                let sp = self.peek_spaces(1);
                proof {
                    if p + 1 < s.len() && is_space_b(s[p + 1]) {
                        lemma_spaces_end(s, p + 2);
                    }
                }
                if sp == 0 {
                    self.read();
                    return Some(46);
                } else {
                    return None;
                }
            }
        }
        None
    }

    /// Scans the rest of an identifier or number whose first byte, already
    /// consumed, is `begin_char`, and returns the whole text including it;
    /// a byte that starts none of those scans yields nothing.
    fn read_chars(&mut self, begin_char: u8) -> (r: Option<Vec<u8>>)
        requires
            old(self).wf(),
            old(self)@.position >= 1,
            begin_char == old(self)@.input[old(self)@.position - 1],
        ensures
            final(self).wf(),
            final(self)@.input == old(self)@.input,
            final(self)@.commited == old(self)@.commited,
            ({
                let s = old(self)@.input;
                let b = old(self)@.position - 1;
                if is_letter_b(begin_char) {
                    let e = letters_end(s, b + 1);
                    r matches Some(v) && v@ == s.subrange(b, e) && final(self)@.position == e
                } else if begin_char == 48 && b + 1 < s.len() && s[b + 1] == 98 {
                    let e = bits_end(s, b + 2);
                    r matches Some(v) && v@ == s.subrange(b, e) && final(self)@.position == e
                } else if begin_char == 48 && b + 1 < s.len() && s[b + 1] == 120 {
                    let e = nibles_end(s, b + 2);
                    r matches Some(v) && v@ == s.subrange(b, e) && final(self)@.position == e
                } else if is_digit_b(begin_char) {
                    let e = num_end(s, b + 1);
                    r matches Some(v) && v@ == s.subrange(b, e) && final(self)@.position == e
                } else {
                    r is None && final(self)@.position == old(self)@.position
                }
            }),
            r matches Some(v) ==> forall|i: int| 0 <= i < v@.len() ==> v@[i] < 128,
    {
        let ghost s = self@.input;
        let ghost b = self@.position - 1;
        let mut chars: Vec<u8> = Vec::new();
        chars.push(begin_char);
        proof {
            assert(chars@ =~= s.subrange(b, b + 1));
        }

        if Self::is_letter(begin_char) {
            loop
                invariant
                    self.wf(),
                    self@.input == s,
                    self@.commited == old(self)@.commited,
                    0 <= b && b + 1 <= self@.position,
                    chars@ == s.subrange(b, self@.position),
                    forall|i: int| 0 <= i < chars@.len() ==> chars@[i] < 128,
                    letters_end(s, self@.position) == letters_end(s, b + 1),
                ensures
                    self@.position == letters_end(s, b + 1),
                decreases s.len() - self@.position,
            {
                match self.read_letter() {
                    Some(c) => {
                        chars.push(c);
                        proof {
                            assert(chars@ =~= s.subrange(b, self@.position));
                        }
                    },
                    None => {
                        break;
                    },
                }
            }
            return Some(chars);
        }

        if begin_char == 48 {
            if let Some(c) = self.peek() {
                match c {
                    98 => {
                        self.read();
                        chars.push(98);
                        proof {
                            assert(chars@ =~= s.subrange(b, self@.position));
                        }
                        loop
                            invariant
                                self.wf(),
                                self@.input == s,
                                self@.commited == old(self)@.commited,
                                0 <= b && b + 2 <= self@.position,
                                chars@ == s.subrange(b, self@.position),
                                forall|i: int| 0 <= i < chars@.len() ==> chars@[i] < 128,
                                bits_end(s, self@.position) == bits_end(s, b + 2),
                            ensures
                                self@.position == bits_end(s, b + 2),
                            decreases s.len() - self@.position,
                        {
                            match self.read_bits() {
                                Some(x) => {
                                    chars.push(x);
                                    proof {
                                        assert(chars@ =~= s.subrange(b, self@.position));
                                    }
                                },
                                None => {
                                    break;
                                },
                            }
                        }
                        return Some(chars);
                    },
                    120 => {
                        self.read();
                        chars.push(120);
                        proof {
                            assert(chars@ =~= s.subrange(b, self@.position));
                        }
                        loop
                            invariant
                                self.wf(),
                                self@.input == s,
                                self@.commited == old(self)@.commited,
                                0 <= b && b + 2 <= self@.position,
                                chars@ == s.subrange(b, self@.position),
                                forall|i: int| 0 <= i < chars@.len() ==> chars@[i] < 128,
                                nibles_end(s, self@.position) == nibles_end(s, b + 2),
                            ensures
                                self@.position == nibles_end(s, b + 2),
                            decreases s.len() - self@.position,
                        {
                            match self.read_nibles() {
                                Some(x) => {
                                    chars.push(x);
                                    proof {
                                        assert(chars@ =~= s.subrange(b, self@.position));
                                    }
                                },
                                None => {
                                    break;
                                },
                            }
                        }
                        return Some(chars);
                    },
                    _ => (),
                }
            }
        }

        if Self::is_decimal_digit(begin_char) {
            loop
                invariant
                    self.wf(),
                    self@.input == s,
                    self@.commited == old(self)@.commited,
                    0 <= b && b + 1 <= self@.position,
                    chars@ == s.subrange(b, self@.position),
                    forall|i: int| 0 <= i < chars@.len() ==> chars@[i] < 128,
                    num_end(s, self@.position) == num_end(s, b + 1),
                ensures
                    self@.position == num_end(s, b + 1),
                decreases s.len() - self@.position,
            {
                match self.read_numeric_or_dot() {
                    Some(c) => {
                        chars.push(c);
                        proof {
                            assert(chars@ =~= s.subrange(b, self@.position));
                        }
                    },
                    None => {
                        break;
                    },
                }
            }
            return Some(chars);
        }

        None
    }

    /// Classifies the identifier-or-number token whose first byte was just
    /// consumed: identifier text is promoted to a keyword when it matches
    /// the reserved-word table, with one byte of lookahead assembling `as!`
    /// and `as?`.
    fn alphanumeric(&mut self) -> (r: Option<TokenKind>)
        requires
            old(self).wf(),
            old(self)@.position >= 1,
            old(self)@.last == old(self)@.input[old(self)@.position - 1],
        ensures
            final(self).wf(),
            final(self)@.input == old(self)@.input,
            final(self)@.commited == old(self)@.commited,
            ({
                let st = word_token(old(self)@.input, old(self)@.position - 1);
                &&& final(self)@.position == st.end
                &&& (r matches Some(k) ==> k@ == st.kind)
                &&& (r is None ==> st.kind == TokenKindV::Unrecognized)
            }),
    {
        let ghost s = self@.input;
        let ghost b = self@.position - 1;
        let begin = self.last_char;
        let letter_led = Self::is_letter(begin);
        match self.read_chars(begin) {
            None => None,
            Some(letters) => {
                proof {
                    lemma_ascii_decode(letters@);
                }
                let text = match string_from_utf8(letters) {
                    Some(t) => t,
                    None => unreached(),
                };
                if !letter_led {
                    return Some(TokenKind::Identifier(text));
                }
                match Keyword::from(text.as_str()) {
                    Some(Keyword::As) => {
                        if let Some(c) = self.peek() {
                            if c == 33 {
                                self.read();
                                return Some(TokenKind::Keyword(Keyword::AsEx));
                            }
                            if c == 63 {
                                self.read();
                                return Some(TokenKind::Keyword(Keyword::AsQu));
                            }
                        }
                        Some(TokenKind::Keyword(Keyword::As))
                    },
                    Some(k) => Some(TokenKind::Keyword(k)),
                    None => Some(TokenKind::Identifier(text)),
                }
            },
        }
    }

    /// Decides whether `c` can begin or continue an identifier.
    fn is_letter(c: u8) -> (r: bool)
        ensures
            r == is_letter_b(c),
    {
        (65 <= c && c <= 90) || (97 <= c && c <= 122) || c == 95
    }

    /// Decides whether `c` is a decimal digit.
    fn is_decimal_digit(c: u8) -> (r: bool)
        ensures
            r == is_digit_b(c),
    {
        48 <= c && c <= 57
    }

    /// Decides whether `c` is a hexadecimal digit.
    fn is_nible(c: u8) -> (r: bool)
        ensures
            r == is_nible_b(c),
    {
        (48 <= c && c <= 57) || (97 <= c && c <= 102) || (65 <= c && c <= 70)
    }
}

/// Relies on `String::from_utf8`: it succeeds exactly on well-formed UTF-8
/// input and returns the string spelling those bytes.
#[verifier::external_body]
fn string_from_utf8(bytes: Vec<u8>) -> (r: Option<String>)
    ensures
        r is Some <==> vstd::utf8::valid_utf8(bytes@),
        r matches Some(s) ==> s@ == vstd::utf8::decode_utf8(bytes@),
{
    match String::from_utf8(bytes) {
        Ok(s) => Some(s),
        Err(_) => None,
    }
}

/// Decides whether `c` is a whitespace byte.
fn is_space(c: u8) -> (r: bool)
    ensures
        r == is_space_b(c),
{
    c == 32 || c == 10 || c == 9 || c == 13
}

/// Decides whether the byte at `i` is whitespace.
fn is_space_at(v: &Vec<u8>, i: usize) -> (r: bool)
    requires
        i < v@.len(),
    ensures
        r == is_space_b(v@[i as int]),
{
    is_space(v[i])
}

/// The tokens that repeated [`Lexer::tokenize`] calls produce from position
/// `pos` onward, the first still committed back to `committed`, up to but
/// not including the end-of-input token.
pub open spec fn tokens_from(s: Seq<u8>, pos: int, committed: int) -> Seq<TokenV>
    decreases s.len() - pos when 0 <= committed <= pos <= s.len()
{
    proof {
        lemma_trivia_end(s, pos);
    }
    let t = trivia_end(s, pos);
    if t >= s.len() {
        seq![]
    } else {
        proof {
            lemma_next_token(s, t);
        }
        let st = next_token(s, t);
        seq![TokenV { kind: st.kind, at: committed as nat, size: (st.end - committed) as nat }]
            + tokens_from(s, st.end, st.end)
    }
}

impl Lexer {
    /// Produces the next token: skips whitespace and comments, classifies
    /// what follows, and stamps the token with the committed start offset
    /// and the number of bytes consumed since it, trivia included. At end
    /// of input, and on every later call, the token is the end-of-input
    /// marker.
    pub fn tokenize(&mut self) -> (r: Token)
        requires
            old(self).wf(),
        ensures
            final(self).wf(),
            final(self)@.input == old(self)@.input,
            final(self)@.commited == final(self)@.position,
            old(self)@.position <= final(self)@.position,
            r.at == old(self)@.commited,
            r.size == final(self)@.position - old(self)@.commited,
            ({
                let s = old(self)@.input;
                let t = trivia_end(s, old(self)@.position);
                if t >= s.len() {
                    r.kind@ == TokenKindV::EOF && final(self)@.position == s.len()
                } else {
                    let st = next_token(s, t);
                    r.kind@ == st.kind && final(self)@.position == st.end
                }
            }),
            !(r.kind@ is EOF) ==> final(self)@.position > old(self)@.position,
    {
        let ghost s = self@.input;
        let ghost p0 = self@.position;
        proof {
            lemma_trivia_end(s, p0);
        }

        self.read_spaces();
        proof {
            lemma_spaces_end_idem(s, p0);
        }
        loop
            invariant
                self.wf(),
                self@.input == s,
                self@.commited == old(self)@.commited,
                0 <= p0 <= self@.position,
                spaces_end(s, self@.position) == self@.position,
                trivia_end(s, self@.position) == trivia_end(s, p0),
            ensures
                self@.position == trivia_end(s, p0),
            decreases s.len() - self@.position,
        {
            let ghost p = self@.position;
            if !self.read_comments() {
                break;
            }
            proof {
                if p + 1 < s.len() && s[p] == 47 && s[p + 1] == 47 {
                    lemma_line_end(s, p + 2);
                } else {
                    lemma_block_end(s, p + 2);
                }
            }
            let ghost q = self@.position;
            self.read_spaces();
            proof {
                lemma_spaces_end_idem(s, q);
                lemma_spaces_end(s, q);
                assert(trivia_end(s, p) == trivia_end(s, q));
                assert(trivia_end(s, q) == trivia_end(s, self@.position));
            }
        }

        let ghost t = self@.position;
        proof {
            if t < s.len() {
                lemma_next_token(s, t);
            }
        }
        let kind = match self.read() {
            None => TokenKind::EOF,
            Some(c) => {
                match c {
                    40 => TokenKind::ParenOpen,
                    41 => TokenKind::ParenClose,
                    91 => TokenKind::BracketOpen,
                    93 => TokenKind::BracketClose,
                    123 => TokenKind::BraceOpen,
                    125 => TokenKind::BraceClose,
                    60 => match self.angle_open() {
                        Some(k) => k,
                        None => TokenKind::Unrecognized,
                    },
                    62 => match self.angle_close() {
                        Some(k) => k,
                        None => TokenKind::Unrecognized,
                    },
                    44 => TokenKind::Comma,
                    46 => match self.period() {
                        Some(k) => k,
                        None => TokenKind::Unrecognized,
                    },
                    43 => TokenKind::Plus,
                    45 => TokenKind::Minus,
                    42 => TokenKind::Asterisk,
                    47 => TokenKind::Slash,
                    92 => TokenKind::Backslash,
                    37 => TokenKind::Percent,
                    61 => match self.equal() {
                        Some(k) => k,
                        None => TokenKind::Unrecognized,
                    },
                    63 => match self.question() {
                        Some(k) => k,
                        None => TokenKind::Unrecognized,
                    },
                    33 => match self.excalmation() {
                        Some(k) => k,
                        None => TokenKind::Unrecognized,
                    },
                    64 => TokenKind::At,
                    38 => match self.and() {
                        Some(k) => k,
                        None => TokenKind::Unrecognized,
                    },
                    124 => match self.or() {
                        Some(k) => k,
                        None => TokenKind::Unrecognized,
                    },
                    94 => TokenKind::Xor,
                    34 => match self.double_quote() {
                        Some(k) => k,
                        None => TokenKind::Unrecognized,
                    },
                    39 => TokenKind::SingleQuote,
                    59 => TokenKind::SemiColon,
                    58 => TokenKind::Colon,
                    _ => match self.alphanumeric() {
                        Some(k) => k,
                        None => TokenKind::Unrecognized,
                    },
                }
            },
        };

        let at = self.commited_position;
        let size = self.position - self.commited_position;
        self.commit();
        Token::new(kind, at, size)
    }

    /// Runs the lexer to completion, materializing every token before the
    /// end-of-input marker into a vector.
    pub fn tokenize_all(&mut self) -> (r: Vec<Token>)
        requires
            old(self).wf(),
        ensures
            final(self).wf(),
            final(self)@.input == old(self)@.input,
            r@.map_values(|t: Token| t@)
                == tokens_from(old(self)@.input, old(self)@.position, old(self)@.commited),
    {
        let ghost s = self@.input;
        let ghost p0 = self@.position;
        let ghost c0 = self@.commited;
        let mut out: Vec<Token> = Vec::new();
        loop
            invariant
                self.wf(),
                self@.input == s,
                tokens_from(s, p0, c0)
                    == out@.map_values(|t: Token| t@)
                        + tokens_from(s, self@.position, self@.commited),
            ensures
                tokens_from(s, p0, c0) == out@.map_values(|t: Token| t@),
            decreases s.len() - self@.position,
        {
            let ghost p = self@.position;
            let ghost com = self@.commited;
            let t = self.tokenize();
            if let TokenKind::EOF = t.kind {
                proof {
                    assert(tokens_from(s, p, com) =~= Seq::<TokenV>::empty());
                    assert(out@.map_values(|t: Token| t@) + tokens_from(s, p, com)
                        =~= out@.map_values(|t: Token| t@));
                }
                break;
            }
            proof {
                lemma_trivia_end(s, p);
                let tv = trivia_end(s, p);
                lemma_next_token(s, tv);
                let st = next_token(s, tv);
                assert(tokens_from(s, p, com)
                    =~= seq![TokenV {
                        kind: st.kind,
                        at: com as nat,
                        size: (st.end - com) as nat,
                    }] + tokens_from(s, st.end, st.end));
                assert(t@ == TokenV {
                    kind: st.kind,
                    at: com as nat,
                    size: (st.end - com) as nat,
                });
            }
            let ghost out_old = out@;
            out.push(t);
            proof {
                assert(out@.map_values(|t: Token| t@)
                    =~= out_old.map_values(|t: Token| t@) + seq![t@]);
                assert(tokens_from(s, p0, c0)
                    =~= out@.map_values(|t: Token| t@)
                        + tokens_from(s, self@.position, self@.commited));
            }
        }
        out
    }
}

} // verus!
