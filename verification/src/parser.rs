//! The parser: a backtracking recursive-descent engine over a materialized
//! token vector. A fixed cascade of precedence tiers builds a [`Node`]
//! tree, each tier parsing the operators of one binding strength and
//! delegating operands to the next-tighter tier. Backtracking is bounded:
//! a rule speculatively reads one token and, on mismatch, pushes it back by
//! retreating the cursor exactly one position.

use vstd::prelude::*;
use crate::token::{Token, TokenKind, TokenKindV, TokenV, Keyword, kinds_match, str_eq};
use crate::ast::{Node, NodeKind, NodeV, Expression, ArgumentExp, BinaryOperation, UnaryOperation};
use crate::expression::{FullType, FullTypeV};

verus! {

/// A parse failure: the grammar needed another token and the stream was
/// exhausted, or a token of the wrong kind stood at the current position.
/// The message names what was expected, for diagnostics.
#[derive(Clone, Debug, PartialEq)]
pub enum Error {
    EOF,
    ParseError(String),
}

/// Mathematical model of a parse failure: the diagnostic text is
/// abstracted away.
pub enum ErrorV {
    EOF,
    ParseError,
}

impl View for Error {
    type V = ErrorV;

    open spec fn view(&self) -> ErrorV {
        match self {
            Error::EOF => ErrorV::EOF,
            Error::ParseError(_) => ErrorV::ParseError,
        }
    }
}

/// The models of a token sequence.
pub open spec fn token_views(ts: Seq<Token>) -> Seq<TokenV> {
    ts.map_values(|t: Token| t@)
}

/// The outcome of a grammar rule: the node it built and the position after
/// it, or the failure it hit.
pub type SpecParsed = Result<(NodeV, int), ErrorV>;

/// The logical operator denoted by a token kind, if any.
pub open spec fn logical_op_of(k: TokenKindV) -> Option<BinaryOperation> {
    match k {
        TokenKindV::LogicalConjunction => Some(BinaryOperation::AndAnd),
        TokenKindV::LogicalDisjunction => Some(BinaryOperation::OrOr),
        _ => None,
    }
}

/// The equality operator denoted by a token kind, if any.
pub open spec fn eq_op_of(k: TokenKindV) -> Option<BinaryOperation> {
    match k {
        TokenKindV::EqualTo => Some(BinaryOperation::Eq),
        TokenKindV::NotEqual => Some(BinaryOperation::Neq),
        _ => None,
    }
}

/// The relational operator denoted by a token kind, if any.
pub open spec fn comp_op_of(k: TokenKindV) -> Option<BinaryOperation> {
    match k {
        TokenKindV::LessThan => Some(BinaryOperation::Lt),
        TokenKindV::LessThanOrEqual => Some(BinaryOperation::Lte),
        TokenKindV::GreaterThan => Some(BinaryOperation::Gt),
        TokenKindV::GreaterThanOrEqual => Some(BinaryOperation::Gte),
        _ => None,
    }
}

/// The bitwise-or operator denoted by a token kind, if any.
pub open spec fn or_op_of(k: TokenKindV) -> Option<BinaryOperation> {
    match k {
        TokenKindV::BitwiseOr => Some(BinaryOperation::Or),
        _ => None,
    }
}

/// The bitwise-xor operator denoted by a token kind, if any.
pub open spec fn xor_op_of(k: TokenKindV) -> Option<BinaryOperation> {
    match k {
        TokenKindV::Xor => Some(BinaryOperation::Xor),
        _ => None,
    }
}

/// The bitwise-and operator denoted by a token kind, if any.
pub open spec fn and_op_of(k: TokenKindV) -> Option<BinaryOperation> {
    match k {
        TokenKindV::BitwiseAnd => Some(BinaryOperation::And),
        _ => None,
    }
}

/// The shift operator denoted by a token kind, if any.
pub open spec fn shift_op_of(k: TokenKindV) -> Option<BinaryOperation> {
    match k {
        TokenKindV::BitwiseShiftLeft => Some(BinaryOperation::Shil),
        TokenKindV::BitwiseShiftRight => Some(BinaryOperation::Shir),
        _ => None,
    }
}

/// The additive operator denoted by a token kind, if any.
pub open spec fn additive_op_of(k: TokenKindV) -> Option<BinaryOperation> {
    match k {
        TokenKindV::Plus => Some(BinaryOperation::Add),
        TokenKindV::Minus => Some(BinaryOperation::Sub),
        _ => None,
    }
}

/// The multiplicative operator denoted by a token kind, if any.
pub open spec fn multiplicative_op_of(k: TokenKindV) -> Option<BinaryOperation> {
    match k {
        TokenKindV::Asterisk => Some(BinaryOperation::Mul),
        TokenKindV::Slash => Some(BinaryOperation::Div),
        TokenKindV::Percent => Some(BinaryOperation::Mod),
        _ => None,
    }
}

/// The casting operator denoted by a token kind, if any.
pub open spec fn as_op_of(k: TokenKindV) -> Option<BinaryOperation> {
    match k {
        TokenKindV::Keyword(Keyword::As) => Some(BinaryOperation::As),
        TokenKindV::Keyword(Keyword::AsEx) => Some(BinaryOperation::AsExclamation),
        TokenKindV::Keyword(Keyword::AsQu) => Some(BinaryOperation::AsQuestion),
        _ => None,
    }
}

/// The prefix operator denoted by a token kind, if any.
pub open spec fn unary_op_of(k: TokenKindV) -> Option<UnaryOperation> {
    match k {
        TokenKindV::Minus => Some(UnaryOperation::Minus),
        TokenKindV::Exclamation => Some(UnaryOperation::Negate),
        TokenKindV::Move => Some(UnaryOperation::Move),
        _ => None,
    }
}

/// Whether the token kind is the `auth` marker: the identifier `auth`.
pub open spec fn is_auth_kind(k: TokenKindV) -> bool {
    k matches TokenKindV::Identifier(s) && s == "auth"@
}

/// Whether a character is a decimal digit.
pub open spec fn is_digit_char(c: char) -> bool {
    '0' <= c && c <= '9'
}

/// A whole expression: the logical tier wrapped in an expression node.
#[verifier::opaque]
pub open spec fn spec_expression(toks: Seq<TokenV>, i: int) -> SpecParsed
    decreases toks.len() - i, 42int when 0 <= i <= toks.len()
{
    match spec_logical(toks, i) {
        Ok((n, k)) => Ok((NodeV::Expression(Box::new(n)), k)),
        Err(e) => Err(e),
    }
}

/// The logical tier: `&&` and `||`, left-associative.
pub open spec fn spec_logical(toks: Seq<TokenV>, i: int) -> SpecParsed
    decreases toks.len() - i, 40int when 0 <= i <= toks.len()
{
    match spec_eq(toks, i) {
        Ok((lhs, j)) => if i <= j <= toks.len() {
            spec_logical_loop(toks, j, lhs)
        } else {
            Err(ErrorV::ParseError)
        },
        Err(e) => Err(e),
    }
}

pub open spec fn spec_logical_loop(toks: Seq<TokenV>, j: int, lhs: NodeV) -> SpecParsed
    decreases toks.len() - j, 39int when 0 <= j <= toks.len()
{
    if j < toks.len() && logical_op_of(toks[j].kind) is Some {
        let op = logical_op_of(toks[j].kind).unwrap();
        match spec_eq(toks, j + 1) {
            Ok((rhs, k)) => if j < k <= toks.len() {
                spec_logical_loop(
                    toks,
                    k,
                    NodeV::BinaryOperation(Box::new(lhs), Box::new(rhs), op),
                )
            } else {
                Err(ErrorV::ParseError)
            },
            Err(e) => Err(e),
        }
    } else {
        Ok((lhs, j))
    }
}

/// The equality tier: `==` and `!=`, left-associative.
pub open spec fn spec_eq(toks: Seq<TokenV>, i: int) -> SpecParsed
    decreases toks.len() - i, 38int when 0 <= i <= toks.len()
{
    match spec_comp(toks, i) {
        Ok((lhs, j)) => if i <= j <= toks.len() {
            spec_eq_loop(toks, j, lhs)
        } else {
            Err(ErrorV::ParseError)
        },
        Err(e) => Err(e),
    }
}

pub open spec fn spec_eq_loop(toks: Seq<TokenV>, j: int, lhs: NodeV) -> SpecParsed
    decreases toks.len() - j, 37int when 0 <= j <= toks.len()
{
    if j < toks.len() && eq_op_of(toks[j].kind) is Some {
        let op = eq_op_of(toks[j].kind).unwrap();
        match spec_comp(toks, j + 1) {
            Ok((rhs, k)) => if j < k <= toks.len() {
                spec_eq_loop(toks, k, NodeV::BinaryOperation(Box::new(lhs), Box::new(rhs), op))
            } else {
                Err(ErrorV::ParseError)
            },
            Err(e) => Err(e),
        }
    } else {
        Ok((lhs, j))
    }
}

/// The relational tier: `<`, `<=`, `>`, `>=`, left-associative.
pub open spec fn spec_comp(toks: Seq<TokenV>, i: int) -> SpecParsed
    decreases toks.len() - i, 36int when 0 <= i <= toks.len()
{
    match spec_nilco(toks, i) {
        Ok((lhs, j)) => if i <= j <= toks.len() {
            spec_comp_loop(toks, j, lhs)
        } else {
            Err(ErrorV::ParseError)
        },
        Err(e) => Err(e),
    }
}

pub open spec fn spec_comp_loop(toks: Seq<TokenV>, j: int, lhs: NodeV) -> SpecParsed
    decreases toks.len() - j, 35int when 0 <= j <= toks.len()
{
    if j < toks.len() && comp_op_of(toks[j].kind) is Some {
        let op = comp_op_of(toks[j].kind).unwrap();
        match spec_nilco(toks, j + 1) {
            Ok((rhs, k)) => if j < k <= toks.len() {
                spec_comp_loop(toks, k, NodeV::BinaryOperation(Box::new(lhs), Box::new(rhs), op))
            } else {
                Err(ErrorV::ParseError)
            },
            Err(e) => Err(e),
        }
    } else {
        Ok((lhs, j))
    }
}

/// The nil-coalescing tier: `??`, right-associative. The tail collects
/// every further right-hand operand and folds them from the right.
#[verifier::opaque]
pub open spec fn spec_nilco(toks: Seq<TokenV>, i: int) -> SpecParsed
    decreases toks.len() - i, 34int when 0 <= i <= toks.len()
{
    match spec_or(toks, i) {
        Ok((lhs, j)) => if i <= j <= toks.len() {
            match spec_nilco_tail(toks, j) {
                Ok((None, m)) => Ok((lhs, m)),
                Ok((Some(t), m)) => Ok((
                    NodeV::BinaryOperation(Box::new(lhs), Box::new(t), BinaryOperation::NilCo),
                    m,
                )),
                Err(e) => Err(e),
            }
        } else {
            Err(ErrorV::ParseError)
        },
        Err(e) => Err(e),
    }
}

/// The right-folded chain of `??` operands from position `j`, if any.
#[verifier::opaque]
pub open spec fn spec_nilco_tail(toks: Seq<TokenV>, j: int) -> Result<(Option<NodeV>, int), ErrorV>
    decreases toks.len() - j, 33int when 0 <= j <= toks.len()
{
    if j < toks.len() && toks[j].kind is QuestionDouble {
        match spec_or(toks, j + 1) {
            Ok((r, k)) => if j < k <= toks.len() {
                match spec_nilco_tail(toks, k) {
                    Ok((None, m)) => Ok((Some(r), m)),
                    Ok((Some(t), m)) => Ok((
                        Some(NodeV::BinaryOperation(
                            Box::new(r),
                            Box::new(t),
                            BinaryOperation::NilCo,
                        )),
                        m,
                    )),
                    Err(e) => Err(e),
                }
            } else {
                Err(ErrorV::ParseError)
            },
            Err(e) => Err(e),
        }
    } else {
        Ok((None, j))
    }
}

/// The bitwise-or tier: `|`, left-associative.
pub open spec fn spec_or(toks: Seq<TokenV>, i: int) -> SpecParsed
    decreases toks.len() - i, 32int when 0 <= i <= toks.len()
{
    match spec_xor(toks, i) {
        Ok((lhs, j)) => if i <= j <= toks.len() {
            spec_or_loop(toks, j, lhs)
        } else {
            Err(ErrorV::ParseError)
        },
        Err(e) => Err(e),
    }
}

pub open spec fn spec_or_loop(toks: Seq<TokenV>, j: int, lhs: NodeV) -> SpecParsed
    decreases toks.len() - j, 31int when 0 <= j <= toks.len()
{
    if j < toks.len() && or_op_of(toks[j].kind) is Some {
        let op = or_op_of(toks[j].kind).unwrap();
        match spec_xor(toks, j + 1) {
            Ok((rhs, k)) => if j < k <= toks.len() {
                spec_or_loop(toks, k, NodeV::BinaryOperation(Box::new(lhs), Box::new(rhs), op))
            } else {
                Err(ErrorV::ParseError)
            },
            Err(e) => Err(e),
        }
    } else {
        Ok((lhs, j))
    }
}

/// The bitwise-xor tier: `^`, left-associative.
pub open spec fn spec_xor(toks: Seq<TokenV>, i: int) -> SpecParsed
    decreases toks.len() - i, 30int when 0 <= i <= toks.len()
{
    match spec_and(toks, i) {
        Ok((lhs, j)) => if i <= j <= toks.len() {
            spec_xor_loop(toks, j, lhs)
        } else {
            Err(ErrorV::ParseError)
        },
        Err(e) => Err(e),
    }
}

pub open spec fn spec_xor_loop(toks: Seq<TokenV>, j: int, lhs: NodeV) -> SpecParsed
    decreases toks.len() - j, 29int when 0 <= j <= toks.len()
{
    if j < toks.len() && xor_op_of(toks[j].kind) is Some {
        let op = xor_op_of(toks[j].kind).unwrap();
        match spec_and(toks, j + 1) {
            Ok((rhs, k)) => if j < k <= toks.len() {
                spec_xor_loop(toks, k, NodeV::BinaryOperation(Box::new(lhs), Box::new(rhs), op))
            } else {
                Err(ErrorV::ParseError)
            },
            Err(e) => Err(e),
        }
    } else {
        Ok((lhs, j))
    }
}

/// The bitwise-and tier: `&`, left-associative.
pub open spec fn spec_and(toks: Seq<TokenV>, i: int) -> SpecParsed
    decreases toks.len() - i, 28int when 0 <= i <= toks.len()
{
    match spec_shift(toks, i) {
        Ok((lhs, j)) => if i <= j <= toks.len() {
            spec_and_loop(toks, j, lhs)
        } else {
            Err(ErrorV::ParseError)
        },
        Err(e) => Err(e),
    }
}

pub open spec fn spec_and_loop(toks: Seq<TokenV>, j: int, lhs: NodeV) -> SpecParsed
    decreases toks.len() - j, 27int when 0 <= j <= toks.len()
{
    if j < toks.len() && and_op_of(toks[j].kind) is Some {
        let op = and_op_of(toks[j].kind).unwrap();
        match spec_shift(toks, j + 1) {
            Ok((rhs, k)) => if j < k <= toks.len() {
                spec_and_loop(toks, k, NodeV::BinaryOperation(Box::new(lhs), Box::new(rhs), op))
            } else {
                Err(ErrorV::ParseError)
            },
            Err(e) => Err(e),
        }
    } else {
        Ok((lhs, j))
    }
}

/// The shift tier: `<<` and `>>`, left-associative.
pub open spec fn spec_shift(toks: Seq<TokenV>, i: int) -> SpecParsed
    decreases toks.len() - i, 26int when 0 <= i <= toks.len()
{
    match spec_additive(toks, i) {
        Ok((lhs, j)) => if i <= j <= toks.len() {
            spec_shift_loop(toks, j, lhs)
        } else {
            Err(ErrorV::ParseError)
        },
        Err(e) => Err(e),
    }
}

pub open spec fn spec_shift_loop(toks: Seq<TokenV>, j: int, lhs: NodeV) -> SpecParsed
    decreases toks.len() - j, 25int when 0 <= j <= toks.len()
{
    if j < toks.len() && shift_op_of(toks[j].kind) is Some {
        let op = shift_op_of(toks[j].kind).unwrap();
        match spec_additive(toks, j + 1) {
            Ok((rhs, k)) => if j < k <= toks.len() {
                spec_shift_loop(toks, k, NodeV::BinaryOperation(Box::new(lhs), Box::new(rhs), op))
            } else {
                Err(ErrorV::ParseError)
            },
            Err(e) => Err(e),
        }
    } else {
        Ok((lhs, j))
    }
}

/// The additive tier: `+` and `-`, left-associative.
pub open spec fn spec_additive(toks: Seq<TokenV>, i: int) -> SpecParsed
    decreases toks.len() - i, 24int when 0 <= i <= toks.len()
{
    match spec_multiplicative(toks, i) {
        Ok((lhs, j)) => if i <= j <= toks.len() {
            spec_additive_loop(toks, j, lhs)
        } else {
            Err(ErrorV::ParseError)
        },
        Err(e) => Err(e),
    }
}

pub open spec fn spec_additive_loop(toks: Seq<TokenV>, j: int, lhs: NodeV) -> SpecParsed
    decreases toks.len() - j, 23int when 0 <= j <= toks.len()
{
    if j < toks.len() && additive_op_of(toks[j].kind) is Some {
        let op = additive_op_of(toks[j].kind).unwrap();
        match spec_multiplicative(toks, j + 1) {
            Ok((rhs, k)) => if j < k <= toks.len() {
                spec_additive_loop(
                    toks,
                    k,
                    NodeV::BinaryOperation(Box::new(lhs), Box::new(rhs), op),
                )
            } else {
                Err(ErrorV::ParseError)
            },
            Err(e) => Err(e),
        }
    } else {
        Ok((lhs, j))
    }
}

/// The multiplicative tier: `*`, `/` and `%`, left-associative.
pub open spec fn spec_multiplicative(toks: Seq<TokenV>, i: int) -> SpecParsed
    decreases toks.len() - i, 22int when 0 <= i <= toks.len()
{
    match spec_as(toks, i) {
        Ok((lhs, j)) => if i <= j <= toks.len() {
            spec_multiplicative_loop(toks, j, lhs)
        } else {
            Err(ErrorV::ParseError)
        },
        Err(e) => Err(e),
    }
}

pub open spec fn spec_multiplicative_loop(toks: Seq<TokenV>, j: int, lhs: NodeV) -> SpecParsed
    decreases toks.len() - j, 21int when 0 <= j <= toks.len()
{
    if j < toks.len() && multiplicative_op_of(toks[j].kind) is Some {
        let op = multiplicative_op_of(toks[j].kind).unwrap();
        match spec_as(toks, j + 1) {
            Ok((rhs, k)) => if j < k <= toks.len() {
                spec_multiplicative_loop(
                    toks,
                    k,
                    NodeV::BinaryOperation(Box::new(lhs), Box::new(rhs), op),
                )
            } else {
                Err(ErrorV::ParseError)
            },
            Err(e) => Err(e),
        }
    } else {
        Ok((lhs, j))
    }
}

/// The casting tier: `as`, `as!` and `as?`; the right operand is a type
/// annotation, not an expression.
pub open spec fn spec_as(toks: Seq<TokenV>, i: int) -> SpecParsed
    decreases toks.len() - i, 20int when 0 <= i <= toks.len()
{
    match spec_unary(toks, i) {
        Ok((lhs, j)) => if i <= j <= toks.len() {
            spec_as_loop(toks, j, lhs)
        } else {
            Err(ErrorV::ParseError)
        },
        Err(e) => Err(e),
    }
}

pub open spec fn spec_as_loop(toks: Seq<TokenV>, j: int, lhs: NodeV) -> SpecParsed
    decreases toks.len() - j, 19int when 0 <= j <= toks.len()
{
    if j < toks.len() && as_op_of(toks[j].kind) is Some {
        let op = as_op_of(toks[j].kind).unwrap();
        match spec_type_annotation(toks, j + 1) {
            Ok((rhs, k)) => if j < k <= toks.len() {
                spec_as_loop(toks, k, NodeV::BinaryOperation(Box::new(lhs), Box::new(rhs), op))
            } else {
                Err(ErrorV::ParseError)
            },
            Err(e) => Err(e),
        }
    } else {
        Ok((lhs, j))
    }
}

/// End of the run of prefix operators starting at `i`.
pub open spec fn unary_ops_end(toks: Seq<TokenV>, i: int) -> int
    decreases toks.len() - i when 0 <= i <= toks.len()
{
    if i < toks.len() && unary_op_of(toks[i].kind) is Some {
        unary_ops_end(toks, i + 1)
    } else {
        i
    }
}

/// The prefix operators written between positions `i` and `e`, in textual
/// order.
pub open spec fn unary_ops_of(toks: Seq<TokenV>, i: int, e: int) -> Seq<UnaryOperation> {
    Seq::new((e - i) as nat, |k: int| unary_op_of(toks[i + k].kind).unwrap())
}

/// The unary tier: zero or more prefix operators collected into a list, in
/// left-to-right textual order, around a primary operand.
pub open spec fn spec_unary(toks: Seq<TokenV>, i: int) -> SpecParsed
    decreases toks.len() - i, 18int when 0 <= i <= toks.len()
{
    let e = unary_ops_end(toks, i);
    if i <= e <= toks.len() {
        match spec_primary(toks, e) {
            Ok((n, k)) => Ok((
                NodeV::UnaryOperation(Box::new(n), unary_ops_of(toks, i, e)),
                k,
            )),
            Err(err) => Err(err),
        }
    } else {
        Err(ErrorV::ParseError)
    }
}

/// The primary tier: keyword-led forms, or fall through to a factor.
/// `create` expressions and references belong to the declaration grammar,
/// which has no parse rules here, so they fail.
pub open spec fn spec_primary(toks: Seq<TokenV>, i: int) -> SpecParsed
    decreases toks.len() - i, 16int when 0 <= i <= toks.len()
{
    if i >= toks.len() {
        Err(ErrorV::EOF)
    } else {
        match toks[i].kind {
            TokenKindV::Keyword(Keyword::Create) => Err(ErrorV::ParseError),
            TokenKindV::Keyword(Keyword::Destroy) => spec_destroy(toks, i + 1),
            TokenKindV::BitwiseAnd => Err(ErrorV::ParseError),
            _ => spec_factor(toks, i),
        }
    }
}

/// A `destroy` form: wraps the expression that follows the keyword.
pub open spec fn spec_destroy(toks: Seq<TokenV>, i: int) -> SpecParsed
    decreases toks.len() - i, 44int when 0 <= i <= toks.len()
{
    match spec_expression(toks, i) {
        Ok((n, k)) => Ok((NodeV::Destroy(Box::new(n)), k)),
        Err(e) => Err(e),
    }
}

/// A factor: a parenthesized sub-expression or a terminal.
pub open spec fn spec_factor(toks: Seq<TokenV>, i: int) -> SpecParsed
    decreases toks.len() - i, 14int when 0 <= i <= toks.len()
{
    if i >= toks.len() {
        Err(ErrorV::EOF)
    } else if toks[i].kind is ParenOpen {
        match spec_expression(toks, i + 1) {
            Ok((n, k)) => if i < k <= toks.len() {
                if k >= toks.len() {
                    Err(ErrorV::EOF)
                } else if toks[k].kind is ParenClose {
                    Ok((n, k + 1))
                } else {
                    Err(ErrorV::ParseError)
                }
            } else {
                Err(ErrorV::ParseError)
            },
            Err(e) => Err(e),
        }
    } else {
        spec_terminal(toks, i)
    }
}

/// A terminal: a string, number or identifier literal. Identifier text
/// beginning with a decimal digit is a numeric literal.
pub open spec fn spec_terminal(toks: Seq<TokenV>, i: int) -> SpecParsed {
    if i >= toks.len() {
        Err(ErrorV::EOF)
    } else {
        match toks[i].kind {
            TokenKindV::String(s) => Ok((NodeV::TerminalString(s), i + 1)),
            TokenKindV::Identifier(s) => if s.len() > 0 && is_digit_char(s[0]) {
                Ok((NodeV::TerminalNumber(s), i + 1))
            } else {
                Ok((NodeV::TerminalIdentifier(s), i + 1))
            },
            _ => Err(ErrorV::ParseError),
        }
    }
}

/// A type annotation: an optional leading `@` marks a resource type; an
/// optional `auth` marker demands a following `&` and marks an authorized
/// reference; an optional bare `&` marks a plain reference; the trailing
/// identifier is the type name.
pub open spec fn spec_type_annotation(toks: Seq<TokenV>, i: int) -> SpecParsed {
    if i >= toks.len() {
        Err(ErrorV::EOF)
    } else {
        let (is_resource, i1) = if toks[i].kind is At {
            (true, i + 1)
        } else {
            (false, i)
        };
        if i1 >= toks.len() {
            Err(ErrorV::EOF)
        } else {
            let (is_auth, i2) = if is_auth_kind(toks[i1].kind) {
                (true, i1 + 1)
            } else {
                (false, i1)
            };
            if i2 >= toks.len() {
                Err(ErrorV::EOF)
            } else {
                let (is_ref, i3) = if toks[i2].kind is BitwiseAnd {
                    (true, i2 + 1)
                } else {
                    (false, i2)
                };
                if i3 >= toks.len() {
                    Err(ErrorV::EOF)
                } else {
                    match toks[i3].kind {
                        TokenKindV::Identifier(id) => if is_auth && !is_ref {
                            Err(ErrorV::ParseError)
                        } else {
                            let full = if is_auth {
                                FullTypeV::AuthReference(id)
                            } else if is_ref {
                                FullTypeV::Reference(id)
                            } else {
                                FullTypeV::Inner(id)
                            };
                            if is_resource {
                                Ok((NodeV::ResourceTypeAnnotation(full), i3 + 1))
                            } else {
                                Ok((NodeV::TypeAnnotation(full), i3 + 1))
                            }
                        },
                        _ => Err(ErrorV::ParseError),
                    }
                }
            }
        }
    }
}

/// The parser: a cursor over a materialized token vector.
pub struct BacktrackingParser {
    pub cursor: usize,
    pub tokens: Vec<Token>,
}

impl BacktrackingParser {
    /// The cursor never passes the end of the token vector.
    pub open spec fn wf(&self) -> bool {
        self.cursor <= self.tokens@.len() && self.tokens@.len() <= usize::MAX
    }

    /// Builds a parser over a copy of the given tokens, with the cursor at
    /// the start.
    pub fn new(tokens: &[Token]) -> (r: Self)
        ensures
            r.wf(),
            r.cursor == 0,
            token_views(r.tokens@) == token_views(tokens@),
    {
        let n = tokens.len();
        let mut copied: Vec<Token> = Vec::new();
        let mut i: usize = 0;
        while i < n
            invariant
                n == tokens@.len(),
                i <= n,
                copied@.len() == i,
                forall|j: int| 0 <= j < i ==> copied@[j]@ == tokens@[j]@,
            decreases n - i,
        {
            copied.push(vstd::slice::slice_index_get(tokens, i).clone());
            i = i + 1;
        }
        proof {
            assert(token_views(copied@) =~= token_views(tokens@));
        }
        BacktrackingParser { cursor: 0, tokens: copied }
    }
}

impl BacktrackingParser {
    /// Retreats the cursor by exactly one position and returns the token
    /// it then rests on; fails at position zero.
    fn back(&mut self) -> (r: Result<Token, Error>)
        requires
            old(self).wf(),
        ensures
            final(self).wf(),
            final(self).tokens == old(self).tokens,
            if old(self).cursor == 0 {
                &&& r matches Err(e) && e@ == ErrorV::ParseError
                &&& final(self).cursor == old(self).cursor
            } else {
                &&& r matches Ok(t) && t@ == old(self).tokens@[old(self).cursor - 1]@
                &&& final(self).cursor == old(self).cursor - 1
            },
    {
        if self.cursor == 0 {
            return Err(Error::ParseError("cannot step back from the beginning".to_owned()));
        }
        self.cursor = self.cursor - 1;
        Ok(self.tokens[self.cursor].clone())
    }

    /// Returns the token at the cursor and advances past it; fails at end
    /// of input.
    fn read(&mut self) -> (r: Result<Token, Error>)
        requires
            old(self).wf(),
        ensures
            final(self).wf(),
            final(self).tokens == old(self).tokens,
            if old(self).cursor < old(self).tokens@.len() {
                &&& r matches Ok(t) && t@ == old(self).tokens@[old(self).cursor as int]@
                &&& final(self).cursor == old(self).cursor + 1
            } else {
                &&& r matches Err(e) && e@ == ErrorV::EOF
                &&& final(self).cursor == old(self).cursor
            },
    {
        if self.cursor >= self.tokens.len() {
            return Err(Error::EOF);
        }
        let current = self.cursor;
        self.cursor = current + 1;
        Ok(self.tokens[current].clone())
    }

    /// Returns the token at the cursor without consuming it.
    fn peek(&self) -> (r: Option<Token>)
        requires
            self.wf(),
        ensures
            if self.cursor < self.tokens@.len() {
                r matches Some(t) && t@ == self.tokens@[self.cursor as int]@
            } else {
                r is None
            },
    {
        if self.cursor >= self.tokens.len() {
            return None;
        }
        Some(self.tokens[self.cursor].clone())
    }

    /// Returns the token `n` places past the cursor without consuming
    /// anything.
    fn peekn(&self, n: usize) -> (r: Option<Token>)
        requires
            self.wf(),
            self.cursor + n <= usize::MAX,
        ensures
            if self.cursor + n < self.tokens@.len() {
                r matches Some(t) && t@ == self.tokens@[self.cursor + n]@
            } else {
                r is None
            },
    {
        let cursor = self.cursor + n;
        if cursor >= self.tokens.len() {
            return None;
        }
        Some(self.tokens[cursor].clone())
    }

    /// Reads one token and demands the given kind of it: the wrong kind is
    /// a grammar violation, a missing token exhausts the stream.
    fn expect_and_read(&mut self, kind: TokenKind) -> (r: Result<Token, Error>)
        requires
            old(self).wf(),
        ensures
            final(self).wf(),
            final(self).tokens == old(self).tokens,
            if old(self).cursor >= old(self).tokens@.len() {
                &&& r matches Err(e) && e@ == ErrorV::EOF
                &&& final(self).cursor == old(self).cursor
            } else if old(self).tokens@[old(self).cursor as int]@.kind == kind@ {
                &&& r matches Ok(t) && t@ == old(self).tokens@[old(self).cursor as int]@
                &&& final(self).cursor == old(self).cursor + 1
            } else {
                &&& r matches Err(e) && e@ == ErrorV::ParseError
                &&& final(self).cursor == old(self).cursor + 1
            },
    {
        let token = self.read()?;
        if kinds_match(&token.kind, &kind) {
            Ok(token)
        } else {
            Err(Error::ParseError("a token of another kind stood where this one was required".to_owned()))
        }
    }
}

/// An argument: a labeled form when the next two tokens are an identifier
/// directly followed by a colon, else the whole token run is one unlabeled
/// expression.
pub open spec fn spec_argument(toks: Seq<TokenV>, i: int) -> SpecParsed {
    if i + 1 < toks.len() && (toks[i].kind matches TokenKindV::Identifier(id))
        && toks[i + 1].kind is Colon {
        match spec_expression(toks, i + 2) {
            Ok((n, k)) => Ok((
                NodeV::Argument(Some(toks[i].kind->Identifier_0), Box::new(n)),
                k,
            )),
            Err(e) => Err(e),
        }
    } else {
        match spec_expression(toks, i) {
            Ok((n, k)) => Ok((NodeV::Argument(None, Box::new(n)), k)),
            Err(e) => Err(e),
        }
    }
}

impl BacktrackingParser {

    /// Yields the token at the cursor when it is an operator of this tier,
    /// consuming nothing.
    fn logical_op(&mut self) -> (r: Option<Token>)
        requires
            old(self).wf(),
        ensures
            *final(self) == *old(self),
            if old(self).cursor < old(self).tokens@.len()
                && logical_op_of(old(self).tokens@[old(self).cursor as int]@.kind) is Some {
                r matches Some(t) && t@ == old(self).tokens@[old(self).cursor as int]@
            } else {
                r is None
            },
    {
        if let Some(token) = self.peek() {
            return match token.kind {
                TokenKind::LogicalConjunction | TokenKind::LogicalDisjunction => Some(token),
                _ => None,
            };
        }
        None
    }

    /// Yields the token at the cursor when it is an operator of this tier,
    /// consuming nothing.
    fn eq_op(&mut self) -> (r: Option<Token>)
        requires
            old(self).wf(),
        ensures
            *final(self) == *old(self),
            if old(self).cursor < old(self).tokens@.len()
                && eq_op_of(old(self).tokens@[old(self).cursor as int]@.kind) is Some {
                r matches Some(t) && t@ == old(self).tokens@[old(self).cursor as int]@
            } else {
                r is None
            },
    {
        if let Some(token) = self.peek() {
            return match token.kind {
                TokenKind::EqualTo | TokenKind::NotEqual => Some(token),
                _ => None,
            };
        }
        None
    }

    /// Yields the token at the cursor when it is an operator of this tier,
    /// consuming nothing.
    fn comp_op(&mut self) -> (r: Option<Token>)
        requires
            old(self).wf(),
        ensures
            *final(self) == *old(self),
            if old(self).cursor < old(self).tokens@.len()
                && comp_op_of(old(self).tokens@[old(self).cursor as int]@.kind) is Some {
                r matches Some(t) && t@ == old(self).tokens@[old(self).cursor as int]@
            } else {
                r is None
            },
    {
        if let Some(token) = self.peek() {
            return match token.kind {
                TokenKind::LessThan | TokenKind::LessThanOrEqual | TokenKind::GreaterThan | TokenKind::GreaterThanOrEqual => Some(token),
                _ => None,
            };
        }
        None
    }

    /// Yields the token at the cursor when it is an operator of this tier,
    /// consuming nothing.
    fn nilco_op(&mut self) -> (r: Option<Token>)
        requires
            old(self).wf(),
        ensures
            *final(self) == *old(self),
            if old(self).cursor < old(self).tokens@.len()
                && old(self).tokens@[old(self).cursor as int]@.kind is QuestionDouble {
                r matches Some(t) && t@ == old(self).tokens@[old(self).cursor as int]@
            } else {
                r is None
            },
    {
        if let Some(token) = self.peek() {
            return match token.kind {
                TokenKind::QuestionDouble => Some(token),
                _ => None,
            };
        }
        None
    }

    /// Yields the token at the cursor when it is an operator of this tier,
    /// consuming nothing.
    fn or_op(&mut self) -> (r: Option<Token>)
        requires
            old(self).wf(),
        ensures
            *final(self) == *old(self),
            if old(self).cursor < old(self).tokens@.len()
                && or_op_of(old(self).tokens@[old(self).cursor as int]@.kind) is Some {
                r matches Some(t) && t@ == old(self).tokens@[old(self).cursor as int]@
            } else {
                r is None
            },
    {
        if let Some(token) = self.peek() {
            return match token.kind {
                TokenKind::BitwiseOr => Some(token),
                _ => None,
            };
        }
        None
    }

    /// Yields the token at the cursor when it is an operator of this tier,
    /// consuming nothing.
    fn xor_op(&mut self) -> (r: Option<Token>)
        requires
            old(self).wf(),
        ensures
            *final(self) == *old(self),
            if old(self).cursor < old(self).tokens@.len()
                && xor_op_of(old(self).tokens@[old(self).cursor as int]@.kind) is Some {
                r matches Some(t) && t@ == old(self).tokens@[old(self).cursor as int]@
            } else {
                r is None
            },
    {
        if let Some(token) = self.peek() {
            return match token.kind {
                TokenKind::Xor => Some(token),
                _ => None,
            };
        }
        None
    }

    /// Yields the token at the cursor when it is an operator of this tier,
    /// consuming nothing.
    fn and_op(&mut self) -> (r: Option<Token>)
        requires
            old(self).wf(),
        ensures
            *final(self) == *old(self),
            if old(self).cursor < old(self).tokens@.len()
                && and_op_of(old(self).tokens@[old(self).cursor as int]@.kind) is Some {
                r matches Some(t) && t@ == old(self).tokens@[old(self).cursor as int]@
            } else {
                r is None
            },
    {
        if let Some(token) = self.peek() {
            return match token.kind {
                TokenKind::BitwiseAnd => Some(token),
                _ => None,
            };
        }
        None
    }

    /// Yields the token at the cursor when it is an operator of this tier,
    /// consuming nothing.
    fn shift_op(&mut self) -> (r: Option<Token>)
        requires
            old(self).wf(),
        ensures
            *final(self) == *old(self),
            if old(self).cursor < old(self).tokens@.len()
                && shift_op_of(old(self).tokens@[old(self).cursor as int]@.kind) is Some {
                r matches Some(t) && t@ == old(self).tokens@[old(self).cursor as int]@
            } else {
                r is None
            },
    {
        if let Some(token) = self.peek() {
            return match token.kind {
                TokenKind::BitwiseShiftLeft | TokenKind::BitwiseShiftRight => Some(token),
                _ => None,
            };
        }
        None
    }

    /// Yields the token at the cursor when it is an operator of this tier,
    /// consuming nothing.
    fn additive_op(&mut self) -> (r: Option<Token>)
        requires
            old(self).wf(),
        ensures
            *final(self) == *old(self),
            if old(self).cursor < old(self).tokens@.len()
                && additive_op_of(old(self).tokens@[old(self).cursor as int]@.kind) is Some {
                r matches Some(t) && t@ == old(self).tokens@[old(self).cursor as int]@
            } else {
                r is None
            },
    {
        if let Some(token) = self.peek() {
            return match token.kind {
                TokenKind::Plus | TokenKind::Minus => Some(token),
                _ => None,
            };
        }
        None
    }

    /// Yields the token at the cursor when it is an operator of this tier,
    /// consuming nothing.
    fn multiplicative_op(&mut self) -> (r: Option<Token>)
        requires
            old(self).wf(),
        ensures
            *final(self) == *old(self),
            if old(self).cursor < old(self).tokens@.len()
                && multiplicative_op_of(old(self).tokens@[old(self).cursor as int]@.kind) is Some {
                r matches Some(t) && t@ == old(self).tokens@[old(self).cursor as int]@
            } else {
                r is None
            },
    {
        if let Some(token) = self.peek() {
            return match token.kind {
                TokenKind::Asterisk | TokenKind::Slash | TokenKind::Percent => Some(token),
                _ => None,
            };
        }
        None
    }

    /// Yields the token at the cursor when it is a casting operator,
    /// consuming nothing.
    fn as_op(&mut self) -> (r: Option<Token>)
        requires
            old(self).wf(),
        ensures
            *final(self) == *old(self),
            if old(self).cursor < old(self).tokens@.len()
                && as_op_of(old(self).tokens@[old(self).cursor as int]@.kind) is Some {
                r matches Some(t) && t@ == old(self).tokens@[old(self).cursor as int]@
            } else {
                r is None
            },
    {
        if let Some(token) = self.peek() {
            return match token.kind {
                TokenKind::Keyword(Keyword::As)
                | TokenKind::Keyword(Keyword::AsEx)
                | TokenKind::Keyword(Keyword::AsQu) => Some(token),
                _ => None,
            };
        }
        None
    }

    /// Yields the token at the cursor when it is a prefix operator,
    /// consuming nothing.
    fn unary_op(&mut self) -> (r: Option<Token>)
        requires
            old(self).wf(),
        ensures
            *final(self) == *old(self),
            if old(self).cursor < old(self).tokens@.len()
                && unary_op_of(old(self).tokens@[old(self).cursor as int]@.kind) is Some {
                r matches Some(t) && t@ == old(self).tokens@[old(self).cursor as int]@
            } else {
                r is None
            },
    {
        if let Some(token) = self.peek() {
            return match token.kind {
                TokenKind::Minus | TokenKind::Exclamation | TokenKind::Move => Some(token),
                _ => None,
            };
        }
        None
    }
}

impl BacktrackingParser {
    #[verifier::rlimit(100)]
    #[verifier::spinoff_prover]
    fn logical_term(&mut self) -> (r: Result<Node, Error>)
        requires
            old(self).wf(),
        ensures
            final(self).wf(),
            final(self).tokens == old(self).tokens,
            old(self).cursor <= final(self).cursor,
            ({
                let tv = token_views(old(self).tokens@);
                match spec_logical(tv, old(self).cursor as int) {
                    Ok((nv, k)) => r matches Ok(n) && n@ == nv && final(self).cursor == k,
                    Err(ev) => r matches Err(e) && e@ == ev,
                }
            }),
            r is Ok ==> old(self).cursor < final(self).cursor,
        decreases self.tokens@.len() - self.cursor, 40int,
    {
        let ghost tv = token_views(self.tokens@);
        let ghost i0 = self.cursor as int;
        let mut lhs = self.eq_term()?;
        loop
            invariant
                self.wf(),
                self.tokens == old(self).tokens,
                tv == token_views(self.tokens@),
                i0 == old(self).cursor as int,
                0 <= i0 < self.cursor <= self.tokens@.len(),
                spec_logical(tv, i0) == spec_logical_loop(tv, self.cursor as int, lhs@),
            ensures
                self.wf(),
                self.tokens == old(self).tokens,
                0 <= i0 < self.cursor <= self.tokens@.len(),
                spec_logical(tv, i0) == Ok::<(NodeV, int), ErrorV>((lhs@, self.cursor as int)),
            decreases self.tokens@.len() - self.cursor,
        {
            let ghost c = self.cursor as int;
            match self.logical_op() {
                Some(op) => {
                    self.read()?;
                    let optag = match op.kind {
                        TokenKind::LogicalConjunction => BinaryOperation::AndAnd,
                        TokenKind::LogicalDisjunction => BinaryOperation::OrOr,
                        _ => {
                            proof {
                                assert(false);
                            }
                            return Err(Error::ParseError("expected a logical operator".to_owned()));
                        },
                    };
                    let rhs = self.eq_term()?;
                    lhs = Node::new(NodeKind::BinaryOperation(Box::new(lhs), Box::new(rhs), optag));
                    proof {
                        assert(spec_logical(tv, i0)
                            == spec_logical_loop(tv, self.cursor as int, lhs@));
                    }
                },
                None => {
                    break;
                },
            }
        }
        Ok(lhs)
    }

    #[verifier::rlimit(100)]
    #[verifier::spinoff_prover]
    fn eq_term(&mut self) -> (r: Result<Node, Error>)
        requires
            old(self).wf(),
        ensures
            final(self).wf(),
            final(self).tokens == old(self).tokens,
            old(self).cursor <= final(self).cursor,
            ({
                let tv = token_views(old(self).tokens@);
                match spec_eq(tv, old(self).cursor as int) {
                    Ok((nv, k)) => r matches Ok(n) && n@ == nv && final(self).cursor == k,
                    Err(ev) => r matches Err(e) && e@ == ev,
                }
            }),
            r is Ok ==> old(self).cursor < final(self).cursor,
        decreases self.tokens@.len() - self.cursor, 38int,
    {
        let ghost tv = token_views(self.tokens@);
        let ghost i0 = self.cursor as int;
        let mut lhs = self.comp_term()?;
        loop
            invariant
                self.wf(),
                self.tokens == old(self).tokens,
                tv == token_views(self.tokens@),
                i0 == old(self).cursor as int,
                0 <= i0 < self.cursor <= self.tokens@.len(),
                spec_eq(tv, i0) == spec_eq_loop(tv, self.cursor as int, lhs@),
            ensures
                self.wf(),
                self.tokens == old(self).tokens,
                0 <= i0 < self.cursor <= self.tokens@.len(),
                spec_eq(tv, i0) == Ok::<(NodeV, int), ErrorV>((lhs@, self.cursor as int)),
            decreases self.tokens@.len() - self.cursor,
        {
            let ghost c = self.cursor as int;
            match self.eq_op() {
                Some(op) => {
                    self.read()?;
                    let optag = match op.kind {
                        TokenKind::EqualTo => BinaryOperation::Eq,
                        TokenKind::NotEqual => BinaryOperation::Neq,
                        _ => {
                            proof {
                                assert(false);
                            }
                            return Err(Error::ParseError("expected an equality operator".to_owned()));
                        },
                    };
                    let rhs = self.comp_term()?;
                    lhs = Node::new(NodeKind::BinaryOperation(Box::new(lhs), Box::new(rhs), optag));
                    proof {
                        assert(spec_eq(tv, i0)
                            == spec_eq_loop(tv, self.cursor as int, lhs@));
                    }
                },
                None => {
                    break;
                },
            }
        }
        Ok(lhs)
    }

    #[verifier::rlimit(100)]
    #[verifier::spinoff_prover]
    fn comp_term(&mut self) -> (r: Result<Node, Error>)
        requires
            old(self).wf(),
        ensures
            final(self).wf(),
            final(self).tokens == old(self).tokens,
            old(self).cursor <= final(self).cursor,
            ({
                let tv = token_views(old(self).tokens@);
                match spec_comp(tv, old(self).cursor as int) {
                    Ok((nv, k)) => r matches Ok(n) && n@ == nv && final(self).cursor == k,
                    Err(ev) => r matches Err(e) && e@ == ev,
                }
            }),
            r is Ok ==> old(self).cursor < final(self).cursor,
        decreases self.tokens@.len() - self.cursor, 36int,
    {
        let ghost tv = token_views(self.tokens@);
        let ghost i0 = self.cursor as int;
        let mut lhs = self.nil_co_term()?;
        loop
            invariant
                self.wf(),
                self.tokens == old(self).tokens,
                tv == token_views(self.tokens@),
                i0 == old(self).cursor as int,
                0 <= i0 < self.cursor <= self.tokens@.len(),
                spec_comp(tv, i0) == spec_comp_loop(tv, self.cursor as int, lhs@),
            ensures
                self.wf(),
                self.tokens == old(self).tokens,
                0 <= i0 < self.cursor <= self.tokens@.len(),
                spec_comp(tv, i0) == Ok::<(NodeV, int), ErrorV>((lhs@, self.cursor as int)),
            decreases self.tokens@.len() - self.cursor,
        {
            let ghost c = self.cursor as int;
            match self.comp_op() {
                Some(op) => {
                    self.read()?;
                    let optag = match op.kind {
                        TokenKind::LessThan => BinaryOperation::Lt,
                        TokenKind::LessThanOrEqual => BinaryOperation::Lte,
                        TokenKind::GreaterThan => BinaryOperation::Gt,
                        TokenKind::GreaterThanOrEqual => BinaryOperation::Gte,
                        _ => {
                            proof {
                                assert(false);
                            }
                            return Err(Error::ParseError("expected a relational operator".to_owned()));
                        },
                    };
                    let rhs = self.nil_co_term()?;
                    lhs = Node::new(NodeKind::BinaryOperation(Box::new(lhs), Box::new(rhs), optag));
                    proof {
                        assert(spec_comp(tv, i0)
                            == spec_comp_loop(tv, self.cursor as int, lhs@));
                    }
                },
                None => {
                    break;
                },
            }
        }
        Ok(lhs)
    }

    #[verifier::rlimit(100)]
    #[verifier::spinoff_prover]
    fn or_term(&mut self) -> (r: Result<Node, Error>)
        requires
            old(self).wf(),
        ensures
            final(self).wf(),
            final(self).tokens == old(self).tokens,
            old(self).cursor <= final(self).cursor,
            ({
                let tv = token_views(old(self).tokens@);
                match spec_or(tv, old(self).cursor as int) {
                    Ok((nv, k)) => r matches Ok(n) && n@ == nv && final(self).cursor == k,
                    Err(ev) => r matches Err(e) && e@ == ev,
                }
            }),
            r is Ok ==> old(self).cursor < final(self).cursor,
        decreases self.tokens@.len() - self.cursor, 32int,
    {
        let ghost tv = token_views(self.tokens@);
        let ghost i0 = self.cursor as int;
        let mut lhs = self.xor_term()?;
        loop
            invariant
                self.wf(),
                self.tokens == old(self).tokens,
                tv == token_views(self.tokens@),
                i0 == old(self).cursor as int,
                0 <= i0 < self.cursor <= self.tokens@.len(),
                spec_or(tv, i0) == spec_or_loop(tv, self.cursor as int, lhs@),
            ensures
                self.wf(),
                self.tokens == old(self).tokens,
                0 <= i0 < self.cursor <= self.tokens@.len(),
                spec_or(tv, i0) == Ok::<(NodeV, int), ErrorV>((lhs@, self.cursor as int)),
            decreases self.tokens@.len() - self.cursor,
        {
            let ghost c = self.cursor as int;
            match self.or_op() {
                Some(op) => {
                    self.read()?;
                    let optag = match op.kind {
                        TokenKind::BitwiseOr => BinaryOperation::Or,
                        _ => {
                            proof {
                                assert(false);
                            }
                            return Err(Error::ParseError("expected a bitwise-or operator".to_owned()));
                        },
                    };
                    let rhs = self.xor_term()?;
                    lhs = Node::new(NodeKind::BinaryOperation(Box::new(lhs), Box::new(rhs), optag));
                    proof {
                        assert(spec_or(tv, i0)
                            == spec_or_loop(tv, self.cursor as int, lhs@));
                    }
                },
                None => {
                    break;
                },
            }
        }
        Ok(lhs)
    }

    #[verifier::rlimit(100)]
    #[verifier::spinoff_prover]
    fn xor_term(&mut self) -> (r: Result<Node, Error>)
        requires
            old(self).wf(),
        ensures
            final(self).wf(),
            final(self).tokens == old(self).tokens,
            old(self).cursor <= final(self).cursor,
            ({
                let tv = token_views(old(self).tokens@);
                match spec_xor(tv, old(self).cursor as int) {
                    Ok((nv, k)) => r matches Ok(n) && n@ == nv && final(self).cursor == k,
                    Err(ev) => r matches Err(e) && e@ == ev,
                }
            }),
            r is Ok ==> old(self).cursor < final(self).cursor,
        decreases self.tokens@.len() - self.cursor, 30int,
    {
        let ghost tv = token_views(self.tokens@);
        let ghost i0 = self.cursor as int;
        let mut lhs = self.and_term()?;
        loop
            invariant
                self.wf(),
                self.tokens == old(self).tokens,
                tv == token_views(self.tokens@),
                i0 == old(self).cursor as int,
                0 <= i0 < self.cursor <= self.tokens@.len(),
                spec_xor(tv, i0) == spec_xor_loop(tv, self.cursor as int, lhs@),
            ensures
                self.wf(),
                self.tokens == old(self).tokens,
                0 <= i0 < self.cursor <= self.tokens@.len(),
                spec_xor(tv, i0) == Ok::<(NodeV, int), ErrorV>((lhs@, self.cursor as int)),
            decreases self.tokens@.len() - self.cursor,
        {
            let ghost c = self.cursor as int;
            match self.xor_op() {
                Some(op) => {
                    self.read()?;
                    let optag = match op.kind {
                        TokenKind::Xor => BinaryOperation::Xor,
                        _ => {
                            proof {
                                assert(false);
                            }
                            return Err(Error::ParseError("expected a bitwise-xor operator".to_owned()));
                        },
                    };
                    let rhs = self.and_term()?;
                    lhs = Node::new(NodeKind::BinaryOperation(Box::new(lhs), Box::new(rhs), optag));
                    proof {
                        assert(spec_xor(tv, i0)
                            == spec_xor_loop(tv, self.cursor as int, lhs@));
                    }
                },
                None => {
                    break;
                },
            }
        }
        Ok(lhs)
    }

    #[verifier::rlimit(100)]
    #[verifier::spinoff_prover]
    fn and_term(&mut self) -> (r: Result<Node, Error>)
        requires
            old(self).wf(),
        ensures
            final(self).wf(),
            final(self).tokens == old(self).tokens,
            old(self).cursor <= final(self).cursor,
            ({
                let tv = token_views(old(self).tokens@);
                match spec_and(tv, old(self).cursor as int) {
                    Ok((nv, k)) => r matches Ok(n) && n@ == nv && final(self).cursor == k,
                    Err(ev) => r matches Err(e) && e@ == ev,
                }
            }),
            r is Ok ==> old(self).cursor < final(self).cursor,
        decreases self.tokens@.len() - self.cursor, 28int,
    {
        let ghost tv = token_views(self.tokens@);
        let ghost i0 = self.cursor as int;
        let mut lhs = self.shift_term()?;
        loop
            invariant
                self.wf(),
                self.tokens == old(self).tokens,
                tv == token_views(self.tokens@),
                i0 == old(self).cursor as int,
                0 <= i0 < self.cursor <= self.tokens@.len(),
                spec_and(tv, i0) == spec_and_loop(tv, self.cursor as int, lhs@),
            ensures
                self.wf(),
                self.tokens == old(self).tokens,
                0 <= i0 < self.cursor <= self.tokens@.len(),
                spec_and(tv, i0) == Ok::<(NodeV, int), ErrorV>((lhs@, self.cursor as int)),
            decreases self.tokens@.len() - self.cursor,
        {
            let ghost c = self.cursor as int;
            match self.and_op() {
                Some(op) => {
                    self.read()?;
                    let optag = match op.kind {
                        TokenKind::BitwiseAnd => BinaryOperation::And,
                        _ => {
                            proof {
                                assert(false);
                            }
                            return Err(Error::ParseError("expected a bitwise-and operator".to_owned()));
                        },
                    };
                    let rhs = self.shift_term()?;
                    lhs = Node::new(NodeKind::BinaryOperation(Box::new(lhs), Box::new(rhs), optag));
                    proof {
                        assert(spec_and(tv, i0)
                            == spec_and_loop(tv, self.cursor as int, lhs@));
                    }
                },
                None => {
                    break;
                },
            }
        }
        Ok(lhs)
    }

    #[verifier::rlimit(100)]
    #[verifier::spinoff_prover]
    fn shift_term(&mut self) -> (r: Result<Node, Error>)
        requires
            old(self).wf(),
        ensures
            final(self).wf(),
            final(self).tokens == old(self).tokens,
            old(self).cursor <= final(self).cursor,
            ({
                let tv = token_views(old(self).tokens@);
                match spec_shift(tv, old(self).cursor as int) {
                    Ok((nv, k)) => r matches Ok(n) && n@ == nv && final(self).cursor == k,
                    Err(ev) => r matches Err(e) && e@ == ev,
                }
            }),
            r is Ok ==> old(self).cursor < final(self).cursor,
        decreases self.tokens@.len() - self.cursor, 26int,
    {
        let ghost tv = token_views(self.tokens@);
        let ghost i0 = self.cursor as int;
        let mut lhs = self.additive_term()?;
        loop
            invariant
                self.wf(),
                self.tokens == old(self).tokens,
                tv == token_views(self.tokens@),
                i0 == old(self).cursor as int,
                0 <= i0 < self.cursor <= self.tokens@.len(),
                spec_shift(tv, i0) == spec_shift_loop(tv, self.cursor as int, lhs@),
            ensures
                self.wf(),
                self.tokens == old(self).tokens,
                0 <= i0 < self.cursor <= self.tokens@.len(),
                spec_shift(tv, i0) == Ok::<(NodeV, int), ErrorV>((lhs@, self.cursor as int)),
            decreases self.tokens@.len() - self.cursor,
        {
            let ghost c = self.cursor as int;
            match self.shift_op() {
                Some(op) => {
                    self.read()?;
                    let optag = match op.kind {
                        TokenKind::BitwiseShiftLeft => BinaryOperation::Shil,
                        TokenKind::BitwiseShiftRight => BinaryOperation::Shir,
                        _ => {
                            proof {
                                assert(false);
                            }
                            return Err(Error::ParseError("expected a shift operator".to_owned()));
                        },
                    };
                    let rhs = self.additive_term()?;
                    lhs = Node::new(NodeKind::BinaryOperation(Box::new(lhs), Box::new(rhs), optag));
                    proof {
                        assert(spec_shift(tv, i0)
                            == spec_shift_loop(tv, self.cursor as int, lhs@));
                    }
                },
                None => {
                    break;
                },
            }
        }
        Ok(lhs)
    }

    #[verifier::rlimit(100)]
    #[verifier::spinoff_prover]
    fn additive_term(&mut self) -> (r: Result<Node, Error>)
        requires
            old(self).wf(),
        ensures
            final(self).wf(),
            final(self).tokens == old(self).tokens,
            old(self).cursor <= final(self).cursor,
            ({
                let tv = token_views(old(self).tokens@);
                match spec_additive(tv, old(self).cursor as int) {
                    Ok((nv, k)) => r matches Ok(n) && n@ == nv && final(self).cursor == k,
                    Err(ev) => r matches Err(e) && e@ == ev,
                }
            }),
            r is Ok ==> old(self).cursor < final(self).cursor,
        decreases self.tokens@.len() - self.cursor, 24int,
    {
        let ghost tv = token_views(self.tokens@);
        let ghost i0 = self.cursor as int;
        let mut lhs = self.multiplicative_term()?;
        loop
            invariant
                self.wf(),
                self.tokens == old(self).tokens,
                tv == token_views(self.tokens@),
                i0 == old(self).cursor as int,
                0 <= i0 < self.cursor <= self.tokens@.len(),
                spec_additive(tv, i0) == spec_additive_loop(tv, self.cursor as int, lhs@),
            ensures
                self.wf(),
                self.tokens == old(self).tokens,
                0 <= i0 < self.cursor <= self.tokens@.len(),
                spec_additive(tv, i0) == Ok::<(NodeV, int), ErrorV>((lhs@, self.cursor as int)),
            decreases self.tokens@.len() - self.cursor,
        {
            let ghost c = self.cursor as int;
            match self.additive_op() {
                Some(op) => {
                    self.read()?;
                    let optag = match op.kind {
                        TokenKind::Plus => BinaryOperation::Add,
                        TokenKind::Minus => BinaryOperation::Sub,
                        _ => {
                            proof {
                                assert(false);
                            }
                            return Err(Error::ParseError("expected an additive operator".to_owned()));
                        },
                    };
                    let rhs = self.multiplicative_term()?;
                    lhs = Node::new(NodeKind::BinaryOperation(Box::new(lhs), Box::new(rhs), optag));
                    proof {
                        assert(spec_additive(tv, i0)
                            == spec_additive_loop(tv, self.cursor as int, lhs@));
                    }
                },
                None => {
                    break;
                },
            }
        }
        Ok(lhs)
    }

    #[verifier::rlimit(100)]
    #[verifier::spinoff_prover]
    fn multiplicative_term(&mut self) -> (r: Result<Node, Error>)
        requires
            old(self).wf(),
        ensures
            final(self).wf(),
            final(self).tokens == old(self).tokens,
            old(self).cursor <= final(self).cursor,
            ({
                let tv = token_views(old(self).tokens@);
                match spec_multiplicative(tv, old(self).cursor as int) {
                    Ok((nv, k)) => r matches Ok(n) && n@ == nv && final(self).cursor == k,
                    Err(ev) => r matches Err(e) && e@ == ev,
                }
            }),
            r is Ok ==> old(self).cursor < final(self).cursor,
        decreases self.tokens@.len() - self.cursor, 22int,
    {
        let ghost tv = token_views(self.tokens@);
        let ghost i0 = self.cursor as int;
        let mut lhs = self.as_term()?;
        loop
            invariant
                self.wf(),
                self.tokens == old(self).tokens,
                tv == token_views(self.tokens@),
                i0 == old(self).cursor as int,
                0 <= i0 < self.cursor <= self.tokens@.len(),
                spec_multiplicative(tv, i0) == spec_multiplicative_loop(tv, self.cursor as int, lhs@),
            ensures
                self.wf(),
                self.tokens == old(self).tokens,
                0 <= i0 < self.cursor <= self.tokens@.len(),
                spec_multiplicative(tv, i0) == Ok::<(NodeV, int), ErrorV>((lhs@, self.cursor as int)),
            decreases self.tokens@.len() - self.cursor,
        {
            let ghost c = self.cursor as int;
            match self.multiplicative_op() {
                Some(op) => {
                    self.read()?;
                    let optag = match op.kind {
                        TokenKind::Asterisk => BinaryOperation::Mul,
                        TokenKind::Slash => BinaryOperation::Div,
                        TokenKind::Percent => BinaryOperation::Mod,
                        _ => {
                            proof {
                                assert(false);
                            }
                            return Err(Error::ParseError("expected a multiplicative operator".to_owned()));
                        },
                    };
                    let rhs = self.as_term()?;
                    lhs = Node::new(NodeKind::BinaryOperation(Box::new(lhs), Box::new(rhs), optag));
                    proof {
                        assert(spec_multiplicative(tv, i0)
                            == spec_multiplicative_loop(tv, self.cursor as int, lhs@));
                    }
                },
                None => {
                    break;
                },
            }
        }
        Ok(lhs)
    }

    #[verifier::rlimit(100)]
    #[verifier::spinoff_prover]
    fn as_term(&mut self) -> (r: Result<Node, Error>)
        requires
            old(self).wf(),
        ensures
            final(self).wf(),
            final(self).tokens == old(self).tokens,
            old(self).cursor <= final(self).cursor,
            ({
                let tv = token_views(old(self).tokens@);
                match spec_as(tv, old(self).cursor as int) {
                    Ok((nv, k)) => r matches Ok(n) && n@ == nv && final(self).cursor == k,
                    Err(ev) => r matches Err(e) && e@ == ev,
                }
            }),
            r is Ok ==> old(self).cursor < final(self).cursor,
        decreases self.tokens@.len() - self.cursor, 20int,
    {
        let ghost tv = token_views(self.tokens@);
        let ghost i0 = self.cursor as int;
        let mut lhs = self.unary_term()?;
        loop
            invariant
                self.wf(),
                self.tokens == old(self).tokens,
                tv == token_views(self.tokens@),
                i0 == old(self).cursor as int,
                0 <= i0 < self.cursor <= self.tokens@.len(),
                spec_as(tv, i0) == spec_as_loop(tv, self.cursor as int, lhs@),
            ensures
                self.wf(),
                self.tokens == old(self).tokens,
                0 <= i0 < self.cursor <= self.tokens@.len(),
                spec_as(tv, i0) == Ok::<(NodeV, int), ErrorV>((lhs@, self.cursor as int)),
            decreases self.tokens@.len() - self.cursor,
        {
            let ghost c = self.cursor as int;
            match self.as_op() {
                Some(op) => {
                    self.read()?;
                    let optag = match op.kind {
                        TokenKind::Keyword(Keyword::As) => BinaryOperation::As,
                        TokenKind::Keyword(Keyword::AsEx) => BinaryOperation::AsExclamation,
                        TokenKind::Keyword(Keyword::AsQu) => BinaryOperation::AsQuestion,
                        _ => {
                            proof {
                                assert(false);
                            }
                            return Err(Error::ParseError("expected a casting operator".to_owned()));
                        },
                    };
                    let rhs = self.type_annotation()?;
                    lhs = Node::new(NodeKind::BinaryOperation(Box::new(lhs), Box::new(rhs), optag));
                    proof {
                        assert(spec_as(tv, i0)
                            == spec_as_loop(tv, self.cursor as int, lhs@));
                    }
                },
                None => {
                    break;
                },
            }
        }
        Ok(lhs)
    }
}

/// The models of a node sequence.
pub open spec fn node_views(ns: Seq<Node>) -> Seq<NodeV> {
    ns.map_values(|n: Node| n@)
}

/// Folds a non-empty run of nil-coalescing operands from the right:
/// the last operand is innermost.
pub open spec fn fold_right_nilco(rs: Seq<NodeV>) -> NodeV
    recommends
        rs.len() >= 1,
    decreases rs.len(),
{
    if rs.len() <= 1 {
        rs[0]
    } else {
        NodeV::BinaryOperation(
            Box::new(rs[0]),
            Box::new(fold_right_nilco(rs.drop_first())),
            BinaryOperation::NilCo,
        )
    }
}

/// Combines operands already collected with the outcome of the rest of a
/// nil-coalescing tail scan.
pub open spec fn nilco_combine(
    rs: Seq<NodeV>,
    res: Result<(Option<NodeV>, int), ErrorV>,
) -> Result<(Option<NodeV>, int), ErrorV> {
    match res {
        Err(e) => Err(e),
        Ok((opt, m)) => {
            let all = match opt {
                Some(t) => rs.push(t),
                None => rs,
            };
            if all.len() == 0 {
                Ok((None, m))
            } else {
                Ok((Some(fold_right_nilco(all)), m))
            }
        },
    }
}

/// One collected operand moves from the tail scan into the operand list
/// without changing the combined outcome.
proof fn lemma_nilco_step(tv: Seq<TokenV>, c: int, k: int, rs: Seq<NodeV>, rhsv: NodeV)
    requires
        0 <= c < tv.len(),
        tv[c].kind is QuestionDouble,
        spec_or(tv, c + 1) == Ok::<(NodeV, int), ErrorV>((rhsv, k)),
        c < k <= tv.len(),
    ensures
        nilco_combine(rs.push(rhsv), spec_nilco_tail(tv, k))
            == nilco_combine(rs, spec_nilco_tail(tv, c)),
{
    reveal_with_fuel(spec_nilco_tail, 1);
    match spec_nilco_tail(tv, k) {
        Ok((opt, m)) => {
            match opt {
                Some(t) => {
                    lemma_fold_push(rs, rhsv, t);
                    assert(spec_nilco_tail(tv, c) == Ok::<(Option<NodeV>, int), ErrorV>((
                        Some(NodeV::BinaryOperation(
                            Box::new(rhsv),
                            Box::new(t),
                            BinaryOperation::NilCo,
                        )),
                        m,
                    )));
                },
                None => {
                    assert(spec_nilco_tail(tv, c)
                        == Ok::<(Option<NodeV>, int), ErrorV>((Some(rhsv), m)));
                },
            }
        },
        Err(_) => {},
    }
}

/// A failing operand parse fails the whole tail scan.
proof fn lemma_nilco_step_err(tv: Seq<TokenV>, c: int, rs: Seq<NodeV>, ev: ErrorV)
    requires
        0 <= c < tv.len(),
        tv[c].kind is QuestionDouble,
        spec_or(tv, c + 1) == Err::<(NodeV, int), ErrorV>(ev),
    ensures
        nilco_combine(rs, spec_nilco_tail(tv, c)) == Err::<(Option<NodeV>, int), ErrorV>(ev),
{
    reveal_with_fuel(spec_nilco_tail, 1);
}

/// Parsing leaks no state between runs: two parsers over token vectors
/// that model the same sequence produce the same outcome from the same
/// position — the same tree, ending at the same cursor, or the same kind
/// of failure — and equal trees render to the same text.
pub proof fn lemma_parse_deterministic(t1: Seq<TokenV>, t2: Seq<TokenV>, i: int)
    requires
        t1 == t2,
    ensures
        spec_expression(t1, i) == spec_expression(t2, i),
        spec_expression(t1, i) matches Ok((n, _))
            ==> (spec_expression(t2, i) matches Ok((m, _)) && crate::ast::render_model(n)
                == crate::ast::render_model(m)),
{
}

/// Combining an empty operand list changes nothing.
proof fn lemma_nilco_combine_empty(res: Result<(Option<NodeV>, int), ErrorV>)
    ensures
        nilco_combine(Seq::<NodeV>::empty(), res) == res,
{
    match res {
        Ok((opt, m)) => {
            match opt {
                Some(t) => {
                    assert(Seq::<NodeV>::empty().push(t) =~= seq![t]);
                    assert(fold_right_nilco(seq![t]) == t);
                },
                None => {},
            }
        },
        Err(_) => {},
    }
}

/// Where no nil-coalescing operator stands, the tail scan is empty.
proof fn lemma_nilco_tail_none(tv: Seq<TokenV>, j: int)
    requires
        0 <= j <= tv.len(),
        !(j < tv.len() && tv[j].kind is QuestionDouble),
    ensures
        spec_nilco_tail(tv, j) == Ok::<(Option<NodeV>, int), ErrorV>((None, j)),
{
    reveal_with_fuel(spec_nilco_tail, 1);
}

/// Folding two more operands from the right equals folding their own
/// right-fold as one operand.
proof fn lemma_fold_push(s: Seq<NodeV>, x: NodeV, y: NodeV)
    ensures
        fold_right_nilco(s.push(x).push(y)) == fold_right_nilco(
            s.push(NodeV::BinaryOperation(Box::new(x), Box::new(y), BinaryOperation::NilCo)),
        ),
    decreases s.len(),
{
    if s.len() == 0 {
        let b = NodeV::BinaryOperation(Box::new(x), Box::new(y), BinaryOperation::NilCo);
        assert(s.push(x).push(y) =~= seq![x, y]);
        assert(s.push(b) =~= seq![b]);
        assert(seq![x, y].drop_first() =~= seq![y]);
        assert(fold_right_nilco(seq![y]) == y);
        assert(fold_right_nilco(seq![x, y]) == b);
        assert(fold_right_nilco(seq![b]) == b);
    } else {
        assert(s.push(x).push(y).drop_first() =~= s.drop_first().push(x).push(y));
        assert(s.push(
            NodeV::BinaryOperation(Box::new(x), Box::new(y), BinaryOperation::NilCo),
        ).drop_first() =~= s.drop_first().push(
            NodeV::BinaryOperation(Box::new(x), Box::new(y), BinaryOperation::NilCo),
        ));
        lemma_fold_push(s.drop_first(), x, y);
        assert(fold_right_nilco(s.push(x).push(y)) == NodeV::BinaryOperation(
            Box::new(s[0]),
            Box::new(fold_right_nilco(s.drop_first().push(x).push(y))),
            BinaryOperation::NilCo,
        ));
    }
}

impl BacktrackingParser {
    /// The whole-expression entry point: parses the loosest tier and wraps
    /// the result in an expression node.
    #[verifier::rlimit(100)]
    #[verifier::spinoff_prover]
    pub fn expression(&mut self) -> (r: Result<Node, Error>)
        requires
            old(self).wf(),
        ensures
            final(self).wf(),
            final(self).tokens == old(self).tokens,
            old(self).cursor <= final(self).cursor,
            ({
                let tv = token_views(old(self).tokens@);
                match spec_expression(tv, old(self).cursor as int) {
                    Ok((nv, k)) => r matches Ok(n) && n@ == nv && final(self).cursor == k,
                    Err(ev) => r matches Err(e) && e@ == ev,
                }
            }),
            r is Ok ==> old(self).cursor < final(self).cursor,
        decreases self.tokens@.len() - self.cursor, 42int,
    {
        proof {
            reveal_with_fuel(spec_expression, 1);
        }
        let node = self.logical_term()?;
        Ok(Node::new(NodeKind::Expression(Expression::new(node))))
    }

    /// The nil-coalescing tier: `??`, right-associative. Every right-hand
    /// operand at this level is collected into a list, then the list is
    /// folded from the right.
    #[verifier::rlimit(100)]
    #[verifier::spinoff_prover]
    fn nil_co_term(&mut self) -> (r: Result<Node, Error>)
        requires
            old(self).wf(),
        ensures
            final(self).wf(),
            final(self).tokens == old(self).tokens,
            old(self).cursor <= final(self).cursor,
            ({
                let tv = token_views(old(self).tokens@);
                match spec_nilco(tv, old(self).cursor as int) {
                    Ok((nv, k)) => r matches Ok(n) && n@ == nv && final(self).cursor == k,
                    Err(ev) => r matches Err(e) && e@ == ev,
                }
            }),
            r is Ok ==> old(self).cursor < final(self).cursor,
        decreases self.tokens@.len() - self.cursor, 34int,
    {
        proof {
            reveal_with_fuel(spec_nilco, 1);
        }
        let ghost tv = token_views(self.tokens@);
        let ghost i0 = self.cursor as int;
        let lhs = self.or_term()?;
        let ghost j0 = self.cursor as int;

        let mut rhs_vec: Vec<Node> = Vec::new();
        proof {
            assert(node_views(rhs_vec@) =~= Seq::<NodeV>::empty());
            lemma_nilco_combine_empty(spec_nilco_tail(tv, j0));
        }
        loop
            invariant
                self.wf(),
                self.tokens == old(self).tokens,
                tv == token_views(self.tokens@),
                i0 == old(self).cursor as int,
                0 <= i0 < j0 <= self.cursor <= self.tokens@.len(),
                spec_or(tv, i0) == Ok::<(NodeV, int), ErrorV>((lhs@, j0)),
                nilco_combine(
                    node_views(rhs_vec@),
                    spec_nilco_tail(tv, self.cursor as int),
                ) == spec_nilco_tail(tv, j0),
            ensures
                self.wf(),
                self.tokens == old(self).tokens,
                0 <= i0 < j0 <= self.cursor <= self.tokens@.len(),
                nilco_combine(
                    node_views(rhs_vec@),
                    Ok::<_, ErrorV>((None::<NodeV>, self.cursor as int)),
                ) == spec_nilco_tail(tv, j0),
            decreases self.tokens@.len() - self.cursor,
        {
            let ghost c = self.cursor as int;
            let ghost rs = node_views(rhs_vec@);
            match self.nilco_op() {
                Some(op) => {
                    self.read()?;
                    if !(matches!(op.kind, TokenKind::QuestionDouble)) {
                        proof {
                            assert(false);
                        }
                        return Err(Error::ParseError(
                            "expected a nil-coalescing operator".to_owned(),
                        ));
                    }
                    let rhs = match self.or_term() {
                        Ok(n) => n,
                        Err(e) => {
                            proof {
                                reveal_with_fuel(spec_nilco, 1);
                                lemma_nilco_step_err(tv, c, rs, e@);
                            }
                            return Err(e);
                        },
                    };
                    proof {
                        lemma_nilco_step(tv, c, self.cursor as int, rs, rhs@);
                        assert(node_views(rhs_vec@.push(rhs)) =~= rs.push(rhs@));
                    }
                    rhs_vec.push(rhs);
                },
                None => {
                    proof {
                        lemma_nilco_tail_none(tv, self.cursor as int);
                    }
                    break;
                },
            }
        }

        if rhs_vec.len() > 0 {
            let ghost full = node_views(rhs_vec@);
            let ghost m = self.cursor as int;
            let mut rhs = match rhs_vec.pop() {
                Some(n) => n,
                None => unreached(),
            };
            proof {
                assert(node_views(rhs_vec@).push(rhs@) =~= full);
            }
            loop
                invariant
                    self.wf(),
                    full.len() >= 1,
                    fold_right_nilco(node_views(rhs_vec@).push(rhs@)) == fold_right_nilco(full),
                ensures
                    self.wf(),
                    rhs_vec@.len() == 0,
                    rhs@ == fold_right_nilco(full),
                decreases rhs_vec@.len(),
            {
                let ghost rs = node_views(rhs_vec@);
                match rhs_vec.pop() {
                    Some(next) => {
                        proof {
                            lemma_fold_push(node_views(rhs_vec@), next@, rhs@);
                            assert(node_views(rhs_vec@).push(next@).push(rhs@) =~= rs.push(rhs@));
                        }
                        rhs = Node::new(NodeKind::BinaryOperation(
                            Box::new(next),
                            Box::new(rhs),
                            BinaryOperation::NilCo,
                        ));
                        proof {
                            assert(node_views(rhs_vec@).push(rhs@)
                                =~= node_views(rhs_vec@).push(rhs@));
                        }
                    },
                    None => {
                        proof {
                            assert(node_views(rhs_vec@).push(rhs@) =~= seq![rhs@]);
                        }
                        break;
                    },
                }
            }
            proof {
                assert(spec_nilco_tail(tv, j0) == Ok::<(Option<NodeV>, int), ErrorV>((
                    Some(fold_right_nilco(full)),
                    m,
                )));
            }
            return Ok(Node::new(NodeKind::BinaryOperation(
                Box::new(lhs),
                Box::new(rhs),
                BinaryOperation::NilCo,
            )));
        }

        proof {
            assert(node_views(rhs_vec@) =~= Seq::<NodeV>::empty());
            lemma_nilco_combine_empty(
                Ok::<(Option<NodeV>, int), ErrorV>((None, self.cursor as int)),
            );
        }
        Ok(lhs)
    }

    /// The unary tier: collects the run of prefix operators in textual
    /// order, then attaches it to the primary operand that follows.
    #[verifier::rlimit(100)]
    #[verifier::spinoff_prover]
    fn unary_term(&mut self) -> (r: Result<Node, Error>)
        requires
            old(self).wf(),
        ensures
            final(self).wf(),
            final(self).tokens == old(self).tokens,
            old(self).cursor <= final(self).cursor,
            ({
                let tv = token_views(old(self).tokens@);
                match spec_unary(tv, old(self).cursor as int) {
                    Ok((nv, k)) => r matches Ok(n) && n@ == nv && final(self).cursor == k,
                    Err(ev) => r matches Err(e) && e@ == ev,
                }
            }),
            r is Ok ==> old(self).cursor < final(self).cursor,
        decreases self.tokens@.len() - self.cursor, 18int,
    {
        let ghost tv = token_views(self.tokens@);
        let ghost i0 = self.cursor as int;
        let mut unary_ops: Vec<UnaryOperation> = Vec::new();
        proof {
            assert(unary_ops@ =~= unary_ops_of(tv, i0, i0));
        }
        loop
            invariant
                self.wf(),
                self.tokens == old(self).tokens,
                tv == token_views(self.tokens@),
                i0 == old(self).cursor as int,
                0 <= i0 <= self.cursor <= self.tokens@.len(),
                unary_ops@ == unary_ops_of(tv, i0, self.cursor as int),
                unary_ops_end(tv, self.cursor as int) == unary_ops_end(tv, i0),
            ensures
                self.wf(),
                self.tokens == old(self).tokens,
                0 <= i0 <= self.cursor <= self.tokens@.len(),
                self.cursor as int == unary_ops_end(tv, i0),
                unary_ops@ == unary_ops_of(tv, i0, self.cursor as int),
            decreases self.tokens@.len() - self.cursor,
        {
            let ghost c = self.cursor as int;
            match self.unary_op() {
                Some(op) => {
                    self.read()?;
                    let tag = match op.kind {
                        TokenKind::Minus => UnaryOperation::Minus,
                        TokenKind::Exclamation => UnaryOperation::Negate,
                        TokenKind::Move => UnaryOperation::Move,
                        _ => {
                            proof {
                                assert(false);
                            }
                            return Err(Error::ParseError(
                                "expected a prefix operator".to_owned(),
                            ));
                        },
                    };
                    unary_ops.push(tag);
                    proof {
                        assert(unary_ops@ =~= unary_ops_of(tv, i0, self.cursor as int));
                    }
                },
                None => {
                    break;
                },
            }
        }
        let operand = self.primary_term()?;
        Ok(Node::new(NodeKind::UnaryOperation(Box::new(operand), unary_ops)))
    }

    /// The primary tier: keyword-led forms, or fall through to a factor.
    #[verifier::rlimit(100)]
    #[verifier::spinoff_prover]
    fn primary_term(&mut self) -> (r: Result<Node, Error>)
        requires
            old(self).wf(),
        ensures
            final(self).wf(),
            final(self).tokens == old(self).tokens,
            old(self).cursor <= final(self).cursor,
            ({
                let tv = token_views(old(self).tokens@);
                match spec_primary(tv, old(self).cursor as int) {
                    Ok((nv, k)) => r matches Ok(n) && n@ == nv && final(self).cursor == k,
                    Err(ev) => r matches Err(e) && e@ == ev,
                }
            }),
            r is Ok ==> old(self).cursor < final(self).cursor,
        decreases self.tokens@.len() - self.cursor, 16int,
    {
        let ghost tv = token_views(self.tokens@);
        let ghost i0 = self.cursor as int;
        let token = self.read()?;
        match token.kind {
            TokenKind::Keyword(Keyword::Create) => {
                proof {
                    assert(spec_primary(tv, i0) == Err::<(NodeV, int), ErrorV>(ErrorV::ParseError));
                }
                self.create_term()
            },
            TokenKind::Keyword(Keyword::Destroy) => {
                proof {
                    assert(spec_primary(tv, i0) == spec_destroy(tv, i0 + 1));
                }
                self.destroy_term()
            },
            TokenKind::BitwiseAnd => {
                proof {
                    assert(spec_primary(tv, i0) == Err::<(NodeV, int), ErrorV>(ErrorV::ParseError));
                }
                self.reference_term()
            },
            _ => {
                self.back()?;
                proof {
                    assert(spec_primary(tv, i0) == spec_factor(tv, i0));
                }
                self.factor()
            },
        }
    }

    /// `create` expressions belong to the declaration grammar, which has
    /// no parse rules here.
    fn create_term(&mut self) -> (r: Result<Node, Error>)
        requires
            old(self).wf(),
        ensures
            *final(self) == *old(self),
            r matches Err(e) && e@ == ErrorV::ParseError,
    {
        Err(Error::ParseError("create expressions are outside the expression grammar".to_owned()))
    }

    /// A `destroy` form: wraps the expression that follows the keyword.
    #[verifier::rlimit(100)]
    #[verifier::spinoff_prover]
    fn destroy_term(&mut self) -> (r: Result<Node, Error>)
        requires
            old(self).wf(),
        ensures
            final(self).wf(),
            final(self).tokens == old(self).tokens,
            old(self).cursor <= final(self).cursor,
            ({
                let tv = token_views(old(self).tokens@);
                match spec_destroy(tv, old(self).cursor as int) {
                    Ok((nv, k)) => r matches Ok(n) && n@ == nv && final(self).cursor == k,
                    Err(ev) => r matches Err(e) && e@ == ev,
                }
            }),
            r is Ok ==> old(self).cursor < final(self).cursor,
        decreases self.tokens@.len() - self.cursor, 44int,
    {
        let node = self.expression()?;
        Ok(Node::new(NodeKind::Destroy(Box::new(node))))
    }

    /// References belong to the declaration grammar, which has no parse
    /// rules here.
    fn reference_term(&mut self) -> (r: Result<Node, Error>)
        requires
            old(self).wf(),
        ensures
            *final(self) == *old(self),
            r matches Err(e) && e@ == ErrorV::ParseError,
    {
        Err(Error::ParseError("references are outside the expression grammar".to_owned()))
    }

    /// A factor: a parenthesized sub-expression or a terminal.
    #[verifier::rlimit(100)]
    #[verifier::spinoff_prover]
    fn factor(&mut self) -> (r: Result<Node, Error>)
        requires
            old(self).wf(),
        ensures
            final(self).wf(),
            final(self).tokens == old(self).tokens,
            old(self).cursor <= final(self).cursor,
            ({
                let tv = token_views(old(self).tokens@);
                match spec_factor(tv, old(self).cursor as int) {
                    Ok((nv, k)) => r matches Ok(n) && n@ == nv && final(self).cursor == k,
                    Err(ev) => r matches Err(e) && e@ == ev,
                }
            }),
            r is Ok ==> old(self).cursor < final(self).cursor,
        decreases self.tokens@.len() - self.cursor, 14int,
    {
        proof {
            reveal_with_fuel(spec_factor, 1);
        }
        let token = self.read()?;
        if matches!(token.kind, TokenKind::ParenOpen) {
            let node = self.expression()?;
            self.expect_and_read(TokenKind::ParenClose)?;
            Ok(node)
        } else {
            self.back()?;
            let node = self.terminal()?;
            Ok(node)
        }
    }

    /// A terminal: a string, number or identifier literal. Identifier text
    /// beginning with a decimal digit is a numeric literal.
    fn terminal(&mut self) -> (r: Result<Node, Error>)
        requires
            old(self).wf(),
        ensures
            final(self).wf(),
            final(self).tokens == old(self).tokens,
            old(self).cursor <= final(self).cursor,
            ({
                let tv = token_views(old(self).tokens@);
                match spec_terminal(tv, old(self).cursor as int) {
                    Ok((nv, k)) => r matches Ok(n) && n@ == nv && final(self).cursor == k,
                    Err(ev) => r matches Err(e) && e@ == ev,
                }
            }),
            r is Ok ==> old(self).cursor < final(self).cursor,
    {
        let token = self.read()?;
        match token.kind {
            TokenKind::String(text) => Ok(Node::new(NodeKind::TerminalString(text))),
            TokenKind::Identifier(id) => {
                let numeric = if id.as_str().is_empty() {
                    false
                } else {
                    let c = id.as_str().get_char(0);
                    '0' <= c && c <= '9'
                };
                if numeric {
                    Ok(Node::new(NodeKind::TerminalNumber(id)))
                } else {
                    Ok(Node::new(NodeKind::TerminalIdentifier(id)))
                }
            },
            _ => Err(Error::ParseError("not terminal".to_owned())),
        }
    }

    /// The type annotation sub-grammar: an optional leading `@` marks a
    /// resource type; an optional `auth` marker demands a following `&`;
    /// an optional bare `&` marks a plain reference; the trailing
    /// identifier is the type name.
    pub fn type_annotation(&mut self) -> (r: Result<Node, Error>)
        requires
            old(self).wf(),
        ensures
            final(self).wf(),
            final(self).tokens == old(self).tokens,
            old(self).cursor <= final(self).cursor,
            ({
                let tv = token_views(old(self).tokens@);
                match spec_type_annotation(tv, old(self).cursor as int) {
                    Ok((nv, k)) => r matches Ok(n) && n@ == nv && final(self).cursor == k,
                    Err(ev) => r matches Err(e) && e@ == ev,
                }
            }),
            r is Ok ==> old(self).cursor < final(self).cursor,
    {
        let mut token = self.read()?;
        let is_resource = if matches!(token.kind, TokenKind::At) {
            token = self.read()?;
            true
        } else {
            false
        };

        let auth_here = match &token.kind {
            TokenKind::Identifier(s) => str_eq(s.as_str(), "auth"),
            _ => false,
        };
        let is_auth = if auth_here {
            token = self.read()?;
            true
        } else {
            false
        };

        let is_ref = if matches!(token.kind, TokenKind::BitwiseAnd) {
            token = self.read()?;
            true
        } else {
            false
        };

        match token.kind {
            TokenKind::Identifier(id) => {
                if is_auth && !is_ref {
                    return Err(Error::ParseError("expect & after auth".to_owned()));
                }
                let full = if is_auth {
                    FullType::AuthReference(id)
                } else if is_ref {
                    FullType::Reference(id)
                } else {
                    FullType::Inner(id)
                };
                if is_resource {
                    Ok(Node::new(NodeKind::ResourceTypeAnnotation(full)))
                } else {
                    Ok(Node::new(NodeKind::TypeAnnotation(full)))
                }
            },
            _ => Err(Error::ParseError("expect type".to_owned())),
        }
    }

    /// The argument sub-grammar: a labeled argument when the next two
    /// tokens are an identifier directly followed by a colon, else the
    /// whole token run is one unlabeled expression.
    #[verifier::rlimit(100)]
    #[verifier::spinoff_prover]
    pub fn argument(&mut self) -> (r: Result<Node, Error>)
        requires
            old(self).wf(),
        ensures
            final(self).wf(),
            final(self).tokens == old(self).tokens,
            old(self).cursor <= final(self).cursor,
            ({
                let tv = token_views(old(self).tokens@);
                match spec_argument(tv, old(self).cursor as int) {
                    Ok((nv, k)) => r matches Ok(n) && n@ == nv && final(self).cursor == k,
                    Err(ev) => r matches Err(e) && e@ == ev,
                }
            }),
            r is Ok ==> old(self).cursor < final(self).cursor,
    {
        let ghost tv = token_views(self.tokens@);
        let ghost i0 = self.cursor as int;
        let labeled = match self.peek() {
            Some(t) => match t.kind {
                TokenKind::Identifier(_) => match self.peekn(1) {
                    Some(t2) => matches!(t2.kind, TokenKind::Colon),
                    None => false,
                },
                _ => false,
            },
            None => false,
        };
        proof {
            assert(labeled == (i0 + 1 < tv.len()
                && (tv[i0].kind matches TokenKindV::Identifier(_))
                && tv[i0 + 1].kind is Colon));
        }
        if labeled {
            let tok = self.read()?;
            self.expect_and_read(TokenKind::Colon)?;
            let exp = self.expression()?;
            match tok.kind {
                TokenKind::Identifier(id) => {
                    Ok(Node::new(NodeKind::Argument(ArgumentExp::new(Some(id), exp))))
                },
                _ => {
                    proof {
                        assert(false);
                    }
                    Err(Error::ParseError("expected a label".to_owned()))
                },
            }
        } else {
            let exp = self.expression()?;
            Ok(Node::new(NodeKind::Argument(ArgumentExp::new(None, exp))))
        }
    }
}

} // verus!
