//! Byte-level scanning model: specification functions over the source byte
//! sequence that say, for every position, where each lexical element ends and
//! which token kind it denotes. The executable lexer is verified against
//! these functions.

use vstd::prelude::*;
use crate::token::{TokenKindV, Keyword, spec_keyword};

verus! {

/// Whitespace bytes: space, newline, tab, carriage return.
pub open spec fn is_space_b(c: u8) -> bool {
    c == 32 || c == 10 || c == 9 || c == 13
}

/// Identifier-starting bytes: ASCII letters and underscore.
pub open spec fn is_letter_b(c: u8) -> bool {
    (65 <= c <= 90) || (97 <= c <= 122) || c == 95
}

/// ASCII decimal digits.
pub open spec fn is_digit_b(c: u8) -> bool {
    48 <= c <= 57
}

/// ASCII hexadecimal digits.
pub open spec fn is_nible_b(c: u8) -> bool {
    (48 <= c <= 57) || (97 <= c <= 102) || (65 <= c <= 70)
}

/// The characters spelled by a run of ASCII bytes.
pub open spec fn ascii_chars(b: Seq<u8>) -> Seq<char> {
    b.map_values(|c: u8| c as char)
}

/// End of the run of whitespace starting at `i`.
pub open spec fn spaces_end(s: Seq<u8>, i: int) -> int
    decreases s.len() - i when 0 <= i <= s.len()
{
    if i < s.len() && is_space_b(s[i]) {
        spaces_end(s, i + 1)
    } else {
        i
    }
}

/// Position just after the newline that closes a line comment whose body
/// starts at `i`; end of input if no newline follows.
pub open spec fn line_end(s: Seq<u8>, i: int) -> int
    decreases s.len() - i when 0 <= i <= s.len()
{
    if i < s.len() {
        if s[i] == 10 {
            i + 1
        } else {
            line_end(s, i + 1)
        }
    } else {
        i
    }
}

/// Position just after the `*/` that closes a block comment whose body
/// starts at `i`; end of input if the comment is unterminated.
pub open spec fn block_end(s: Seq<u8>, i: int) -> int
    decreases s.len() - i when 0 <= i <= s.len()
{
    if i < s.len() {
        if s[i] == 42 && i + 1 < s.len() && s[i + 1] == 47 {
            i + 2
        } else {
            block_end(s, i + 1)
        }
    } else {
        i
    }
}

pub proof fn lemma_spaces_end(s: Seq<u8>, i: int)
    requires
        0 <= i <= s.len(),
    ensures
        i <= spaces_end(s, i) <= s.len(),
    decreases s.len() - i,
{
    if i < s.len() && is_space_b(s[i]) {
        lemma_spaces_end(s, i + 1);
    }
}

pub proof fn lemma_spaces_end_idem(s: Seq<u8>, i: int)
    requires
        0 <= i <= s.len(),
    ensures
        spaces_end(s, spaces_end(s, i)) == spaces_end(s, i),
    decreases s.len() - i,
{
    if i < s.len() && is_space_b(s[i]) {
        lemma_spaces_end_idem(s, i + 1);
    }
}

pub proof fn lemma_line_end(s: Seq<u8>, i: int)
    requires
        0 <= i <= s.len(),
    ensures
        i <= line_end(s, i) <= s.len(),
    decreases s.len() - i,
{
    if i < s.len() && s[i] != 10 {
        lemma_line_end(s, i + 1);
    }
}

pub proof fn lemma_block_end(s: Seq<u8>, i: int)
    requires
        0 <= i <= s.len(),
    ensures
        i <= block_end(s, i) <= s.len(),
    decreases s.len() - i,
{
    if i < s.len() && !(s[i] == 42 && i + 1 < s.len() && s[i + 1] == 47) {
        lemma_block_end(s, i + 1);
    }
}

/// End of the leading run of whitespace and comments starting at `i`: skip
/// whitespace, then a `//` comment to its newline or a `/*` comment to its
/// `*/`, and repeat until neither follows.
pub open spec fn trivia_end(s: Seq<u8>, i: int) -> int
    decreases s.len() - i when 0 <= i <= s.len()
{
    let j = spaces_end(s, i);
    proof {
        lemma_spaces_end(s, i);
    }
    if j + 1 < s.len() && s[j] == 47 && s[j + 1] == 47 {
        proof {
            lemma_line_end(s, j + 2);
        }
        trivia_end(s, line_end(s, j + 2))
    } else if j + 1 < s.len() && s[j] == 47 && s[j + 1] == 42 {
        proof {
            lemma_block_end(s, j + 2);
        }
        trivia_end(s, block_end(s, j + 2))
    } else {
        j
    }
}

pub proof fn lemma_trivia_end(s: Seq<u8>, i: int)
    requires
        0 <= i <= s.len(),
    ensures
        i <= trivia_end(s, i) <= s.len(),
    decreases s.len() - i,
{
    lemma_spaces_end(s, i);
    let j = spaces_end(s, i);
    if j + 1 < s.len() && s[j] == 47 && s[j + 1] == 47 {
        lemma_line_end(s, j + 2);
        lemma_trivia_end(s, line_end(s, j + 2));
    } else if j + 1 < s.len() && s[j] == 47 && s[j + 1] == 42 {
        lemma_block_end(s, j + 2);
        lemma_trivia_end(s, block_end(s, j + 2));
    }
}

/// End of the run of letters and digits starting at `i`.
pub open spec fn letters_end(s: Seq<u8>, i: int) -> int
    decreases s.len() - i when 0 <= i <= s.len()
{
    if i < s.len() && (is_letter_b(s[i]) || is_digit_b(s[i])) {
        letters_end(s, i + 1)
    } else {
        i
    }
}

/// End of a decimal-literal tail starting at `i`: digits, plus any dot that
/// is not directly followed by whitespace.
pub open spec fn num_end(s: Seq<u8>, i: int) -> int
    decreases s.len() - i when 0 <= i <= s.len()
{
    if i < s.len() && is_digit_b(s[i]) {
        num_end(s, i + 1)
    } else if i < s.len() && s[i] == 46 && !(i + 1 < s.len() && is_space_b(s[i + 1])) {
        num_end(s, i + 1)
    } else {
        i
    }
}

/// End of the run of binary digits starting at `i`.
pub open spec fn bits_end(s: Seq<u8>, i: int) -> int
    decreases s.len() - i when 0 <= i <= s.len()
{
    if i < s.len() && (s[i] == 48 || s[i] == 49) {
        bits_end(s, i + 1)
    } else {
        i
    }
}

/// End of the run of hexadecimal digits starting at `i`.
pub open spec fn nibles_end(s: Seq<u8>, i: int) -> int
    decreases s.len() - i when 0 <= i <= s.len()
{
    if i < s.len() && is_nible_b(s[i]) {
        nibles_end(s, i + 1)
    } else {
        i
    }
}

pub proof fn lemma_letters_end(s: Seq<u8>, i: int)
    requires
        0 <= i <= s.len(),
    ensures
        i <= letters_end(s, i) <= s.len(),
    decreases s.len() - i,
{
    if i < s.len() && (is_letter_b(s[i]) || is_digit_b(s[i])) {
        lemma_letters_end(s, i + 1);
    }
}

pub proof fn lemma_num_end(s: Seq<u8>, i: int)
    requires
        0 <= i <= s.len(),
    ensures
        i <= num_end(s, i) <= s.len(),
    decreases s.len() - i,
{
    if i < s.len() && (is_digit_b(s[i])
        || (s[i] == 46 && !(i + 1 < s.len() && is_space_b(s[i + 1])))) {
        lemma_num_end(s, i + 1);
    }
}

pub proof fn lemma_bits_end(s: Seq<u8>, i: int)
    requires
        0 <= i <= s.len(),
    ensures
        i <= bits_end(s, i) <= s.len(),
    decreases s.len() - i,
{
    if i < s.len() && (s[i] == 48 || s[i] == 49) {
        lemma_bits_end(s, i + 1);
    }
}

pub proof fn lemma_nibles_end(s: Seq<u8>, i: int)
    requires
        0 <= i <= s.len(),
    ensures
        i <= nibles_end(s, i) <= s.len(),
    decreases s.len() - i,
{
    if i < s.len() && is_nible_b(s[i]) {
        lemma_nibles_end(s, i + 1);
    }
}

/// Outcome of scanning a string literal body: the escape-decoded payload
/// bytes, the position after the scan, and whether a closing quote was found.
pub struct StrScan {
    pub bytes: Seq<u8>,
    pub end: int,
    pub closed: bool,
}

/// Scans a string literal body from `i` (just after the opening quote):
/// bytes are taken verbatim until an unescaped `"`; `\n`, `\\` and `\"`
/// decode to newline, backslash and quote; any other escape keeps the
/// backslash and drops the escaped byte. An unterminated literal runs to end
/// of input.
pub open spec fn str_scan(s: Seq<u8>, i: int) -> StrScan
    decreases s.len() - i when 0 <= i <= s.len()
{
    if i >= s.len() {
        StrScan { bytes: seq![], end: i, closed: false }
    } else if s[i] == 34 {
        StrScan { bytes: seq![], end: i + 1, closed: true }
    } else if s[i] == 92 {
        if i + 1 < s.len() {
            let e = s[i + 1];
            let dec: Seq<u8> = if e == 110 {
                seq![10u8]
            } else if e == 92 {
                seq![92u8]
            } else if e == 34 {
                seq![34u8]
            } else {
                seq![92u8]
            };
            let rest = str_scan(s, i + 2);
            StrScan { bytes: dec + rest.bytes, end: rest.end, closed: rest.closed }
        } else {
            StrScan { bytes: seq![92u8], end: i + 1, closed: false }
        }
    } else {
        let rest = str_scan(s, i + 1);
        StrScan { bytes: seq![s[i]] + rest.bytes, end: rest.end, closed: rest.closed }
    }
}

pub proof fn lemma_str_scan(s: Seq<u8>, i: int)
    requires
        0 <= i <= s.len(),
    ensures
        i <= str_scan(s, i).end <= s.len(),
        i < s.len() ==> i < str_scan(s, i).end,
    decreases s.len() - i,
{
    if i < s.len() && s[i] != 34 {
        if s[i] == 92 {
            if i + 1 < s.len() {
                lemma_str_scan(s, i + 2);
            }
        } else {
            lemma_str_scan(s, i + 1);
        }
    }
}

/// Outcome of classifying one token: its kind and the position after it.
pub struct ScanTok {
    pub kind: TokenKindV,
    pub end: int,
}

/// Classifies the identifier-or-number scan whose first byte sits at `b`.
/// A letter or underscore starts an identifier run, promoted to a keyword
/// when the text matches the reserved-word table (with one byte of lookahead
/// assembling `as!` and `as?`); `0b`/`0x` start binary/hexadecimal digit
/// runs; a decimal digit starts a decimal run; anything else is the
/// unrecognized sentinel.
pub open spec fn word_token(s: Seq<u8>, b: int) -> ScanTok
    recommends
        0 <= b < s.len(),
{
    let c = s[b];
    if is_letter_b(c) {
        let e = letters_end(s, b + 1);
        let w = ascii_chars(s.subrange(b, e));
        if spec_keyword(w) == Some(Keyword::As) {
            if e < s.len() && s[e] == 33 {
                ScanTok { kind: TokenKindV::Keyword(Keyword::AsEx), end: e + 1 }
            } else if e < s.len() && s[e] == 63 {
                ScanTok { kind: TokenKindV::Keyword(Keyword::AsQu), end: e + 1 }
            } else {
                ScanTok { kind: TokenKindV::Keyword(Keyword::As), end: e }
            }
        } else if spec_keyword(w) is Some {
            ScanTok { kind: TokenKindV::Keyword(spec_keyword(w)->0), end: e }
        } else {
            ScanTok { kind: TokenKindV::Identifier(w), end: e }
        }
    } else if c == 48 && b + 1 < s.len() && s[b + 1] == 98 {
        let e = bits_end(s, b + 2);
        ScanTok { kind: TokenKindV::Identifier(ascii_chars(s.subrange(b, e))), end: e }
    } else if c == 48 && b + 1 < s.len() && s[b + 1] == 120 {
        let e = nibles_end(s, b + 2);
        ScanTok { kind: TokenKindV::Identifier(ascii_chars(s.subrange(b, e))), end: e }
    } else if is_digit_b(c) {
        let e = num_end(s, b + 1);
        ScanTok { kind: TokenKindV::Identifier(ascii_chars(s.subrange(b, e))), end: e }
    } else {
        ScanTok { kind: TokenKindV::Unrecognized, end: b + 1 }
    }
}

/// Classifies the token whose first byte sits at `j`, where `j` points at
/// neither whitespace nor a comment. Returns its kind and end position.
pub open spec fn next_token(s: Seq<u8>, j: int) -> ScanTok
    recommends
        0 <= j < s.len(),
{
    let c = s[j];
    if c == 40 {
        ScanTok { kind: TokenKindV::ParenOpen, end: j + 1 }
    } else if c == 41 {
        ScanTok { kind: TokenKindV::ParenClose, end: j + 1 }
    } else if c == 91 {
        ScanTok { kind: TokenKindV::BracketOpen, end: j + 1 }
    } else if c == 93 {
        ScanTok { kind: TokenKindV::BracketClose, end: j + 1 }
    } else if c == 123 {
        ScanTok { kind: TokenKindV::BraceOpen, end: j + 1 }
    } else if c == 125 {
        ScanTok { kind: TokenKindV::BraceClose, end: j + 1 }
    } else if c == 60 {
        angle_open_token(s, j + 1)
    } else if c == 62 {
        angle_close_token(s, j + 1)
    } else if c == 44 {
        ScanTok { kind: TokenKindV::Comma, end: j + 1 }
    } else if c == 46 {
        period_token(s, j + 1)
    } else if c == 43 {
        ScanTok { kind: TokenKindV::Plus, end: j + 1 }
    } else if c == 45 {
        ScanTok { kind: TokenKindV::Minus, end: j + 1 }
    } else if c == 42 {
        ScanTok { kind: TokenKindV::Asterisk, end: j + 1 }
    } else if c == 47 {
        ScanTok { kind: TokenKindV::Slash, end: j + 1 }
    } else if c == 92 {
        ScanTok { kind: TokenKindV::Backslash, end: j + 1 }
    } else if c == 37 {
        ScanTok { kind: TokenKindV::Percent, end: j + 1 }
    } else if c == 61 {
        equal_token(s, j + 1)
    } else if c == 63 {
        question_token(s, j + 1)
    } else if c == 33 {
        exclamation_token(s, j + 1)
    } else if c == 64 {
        ScanTok { kind: TokenKindV::At, end: j + 1 }
    } else if c == 38 {
        and_token(s, j + 1)
    } else if c == 124 {
        or_token(s, j + 1)
    } else if c == 94 {
        ScanTok { kind: TokenKindV::Xor, end: j + 1 }
    } else if c == 34 {
        string_token(s, j + 1)
    } else if c == 39 {
        ScanTok { kind: TokenKindV::SingleQuote, end: j + 1 }
    } else if c == 59 {
        ScanTok { kind: TokenKindV::SemiColon, end: j + 1 }
    } else if c == 58 {
        ScanTok { kind: TokenKindV::Colon, end: j + 1 }
    } else {
        word_token(s, j)
    }
}

/// Dispatch after `<`: `<=`, `<<`, the resource-move family `<-`, `<->`,
/// `<-!`, or a plain angle bracket.
pub open spec fn angle_open_token(s: Seq<u8>, i: int) -> ScanTok {
    if i < s.len() && s[i] == 61 {
        ScanTok { kind: TokenKindV::LessThanOrEqual, end: i + 1 }
    } else if i < s.len() && s[i] == 60 {
        ScanTok { kind: TokenKindV::BitwiseShiftLeft, end: i + 1 }
    } else if i < s.len() && s[i] == 45 {
        if i + 1 < s.len() && s[i + 1] == 62 {
            ScanTok { kind: TokenKindV::Swap, end: i + 2 }
        } else if i + 1 < s.len() && s[i + 1] == 33 {
            ScanTok { kind: TokenKindV::MoveForce, end: i + 2 }
        } else {
            ScanTok { kind: TokenKindV::Move, end: i + 1 }
        }
    } else {
        ScanTok { kind: TokenKindV::AngleOpen, end: i }
    }
}

/// Dispatch after `>`: `>=`, `>>`, or a plain angle bracket.
pub open spec fn angle_close_token(s: Seq<u8>, i: int) -> ScanTok {
    if i < s.len() && s[i] == 61 {
        ScanTok { kind: TokenKindV::GreaterThanOrEqual, end: i + 1 }
    } else if i < s.len() && s[i] == 62 {
        ScanTok { kind: TokenKindV::BitwiseShiftRight, end: i + 1 }
    } else {
        ScanTok { kind: TokenKindV::AngleClose, end: i }
    }
}

/// Dispatch after `=`: `==` or assignment.
pub open spec fn equal_token(s: Seq<u8>, i: int) -> ScanTok {
    if i < s.len() && s[i] == 61 {
        ScanTok { kind: TokenKindV::EqualTo, end: i + 1 }
    } else {
        ScanTok { kind: TokenKindV::Assign, end: i }
    }
}

/// Dispatch after `!`: `!=` or negation.
pub open spec fn exclamation_token(s: Seq<u8>, i: int) -> ScanTok {
    if i < s.len() && s[i] == 61 {
        ScanTok { kind: TokenKindV::NotEqual, end: i + 1 }
    } else {
        ScanTok { kind: TokenKindV::Exclamation, end: i }
    }
}

/// Dispatch after `&`: `&&` (logical) or bitwise-and.
pub open spec fn and_token(s: Seq<u8>, i: int) -> ScanTok {
    if i < s.len() && s[i] == 38 {
        ScanTok { kind: TokenKindV::LogicalConjunction, end: i + 1 }
    } else {
        ScanTok { kind: TokenKindV::BitwiseAnd, end: i }
    }
}

/// Dispatch after `|`: `||` (logical) or bitwise-or.
pub open spec fn or_token(s: Seq<u8>, i: int) -> ScanTok {
    if i < s.len() && s[i] == 124 {
        ScanTok { kind: TokenKindV::LogicalDisjunction, end: i + 1 }
    } else {
        ScanTok { kind: TokenKindV::BitwiseOr, end: i }
    }
}

/// Dispatch after `?`: `??`, `?.`, or a plain question mark.
pub open spec fn question_token(s: Seq<u8>, i: int) -> ScanTok {
    if i < s.len() && s[i] == 63 {
        ScanTok { kind: TokenKindV::QuestionDouble, end: i + 1 }
    } else if i < s.len() && s[i] == 46 {
        ScanTok { kind: TokenKindV::QuestionDot, end: i + 1 }
    } else {
        ScanTok { kind: TokenKindV::Question, end: i }
    }
}

/// Dispatch after `.`: a dot only when not directly followed by whitespace;
/// otherwise the unrecognized sentinel, which swallows that whitespace run.
pub open spec fn period_token(s: Seq<u8>, i: int) -> ScanTok {
    let sp = spaces_end(s, i);
    if sp == i {
        ScanTok { kind: TokenKindV::Dot, end: i }
    } else {
        ScanTok { kind: TokenKindV::Unrecognized, end: sp }
    }
}

/// Dispatch after an opening `"`: a decoded string payload when the literal
/// closes and its payload is well-formed UTF-8; the bare delimiter kind when
/// the literal runs to end of input unterminated; the unrecognized sentinel
/// when the decoded payload is not UTF-8.
pub open spec fn string_token(s: Seq<u8>, i: int) -> ScanTok
    recommends
        0 <= i <= s.len(),
{
    let sc = str_scan(s, i);
    if !sc.closed {
        ScanTok { kind: TokenKindV::DoubleQuote, end: sc.end }
    } else if vstd::utf8::valid_utf8(sc.bytes) {
        ScanTok { kind: TokenKindV::String(vstd::utf8::decode_utf8(sc.bytes)), end: sc.end }
    } else {
        ScanTok { kind: TokenKindV::Unrecognized, end: sc.end }
    }
}

pub proof fn lemma_next_token(s: Seq<u8>, j: int)
    requires
        0 <= j < s.len(),
    ensures
        j < next_token(s, j).end <= s.len(),
{
    let c = s[j];
    if c == 60 || c == 62 || c == 61 || c == 63 || c == 33 || c == 38 || c == 124 {
    } else if c == 46 {
        lemma_spaces_end(s, j + 1);
    } else if c == 34 {
        lemma_str_scan(s, j + 1);
    } else if c == 40 || c == 41 || c == 91 || c == 93 || c == 123 || c == 125
        || c == 44 || c == 43 || c == 45 || c == 42 || c == 47 || c == 92
        || c == 37 || c == 64 || c == 94 || c == 39 || c == 59 || c == 58 {
    } else {
        if is_letter_b(c) {
            lemma_letters_end(s, j + 1);
        } else if c == 48 && j + 1 < s.len() && s[j + 1] == 98 {
            lemma_bits_end(s, j + 2);
        } else if c == 48 && j + 1 < s.len() && s[j + 1] == 120 {
            lemma_nibles_end(s, j + 2);
        } else if is_digit_b(c) {
            lemma_num_end(s, j + 1);
        }
    }
}

/// A run of bytes below 0x80 is valid UTF-8 and decodes to the characters
/// it spells as ASCII.
pub proof fn lemma_ascii_decode(b: Seq<u8>)
    requires
        forall|i: int| 0 <= i < b.len() ==> b[i] < 128,
    ensures
        vstd::utf8::valid_utf8(b),
        vstd::utf8::decode_utf8(b) == ascii_chars(b),
    decreases b.len(),
{
    if b.len() == 0 {
        assert(vstd::utf8::decode_utf8(b) =~= ascii_chars(b));
    } else {
        assert(vstd::utf8::is_leading_byte_width_1(b[0]));
        let c0 = b[0];
        assert(c0 & 0x7F == c0) by (bit_vector)
            requires c0 < 128;
        assert(vstd::utf8::leading_bits_width_1(b[0]) == b[0] as u32);
        assert(vstd::utf8::length_of_first_scalar(b) == 1);
        let rest = vstd::utf8::pop_first_scalar(b);
        assert(rest =~= b.drop_first());
        lemma_ascii_decode(rest);
        assert(vstd::utf8::valid_first_scalar(b));
        assert(vstd::utf8::valid_utf8(b));
        assert(vstd::utf8::decode_first_scalar(b) == b[0] as u32);
        assert((vstd::utf8::decode_first_scalar(b) as char) == b[0] as char);
        assert(vstd::utf8::decode_utf8(b) =~= ascii_chars(b));
    }
}

} // verus!
