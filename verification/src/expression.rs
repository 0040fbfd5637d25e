//! Layered expression forms mirroring the grammar's precedence tiers, one
//! wrapper per tier, together with the type model shared with the
//! syntax-tree nodes. The parser builds the uniform [`crate::ast::Node`]
//! tree; these carriers spell the tiers out as data.

use vstd::prelude::*;

verus! {

/// A whole expression: the loosest tier.
#[derive(Debug, PartialEq)]
pub struct Expression {
    pub node: ConditionalExpression,
}

impl Expression {
    pub fn new(node: ConditionalExpression) -> (r: Self)
        ensures
            r.node == node,
    {
        Self { node }
    }
}

/// A conditional expression wrapping the logical tier.
#[derive(Debug, PartialEq)]
pub struct ConditionalExpression {
    pub exp: OrExpression,
}

impl ConditionalExpression {
    pub fn new(exp: OrExpression) -> (r: Self)
        ensures
            r.exp == exp,
    {
        Self { exp }
    }
}

/// A logical-or tier node: a same-tier left operand and a tighter right
/// operand.
#[derive(Debug, PartialEq)]
pub struct OrExpression {
    pub left: Option<Box<OrExpression>>,
    pub right: AndExpression,
}

impl OrExpression {
    pub fn new(left: Option<OrExpression>, right: AndExpression) -> (r: Self)
        ensures
            left matches Some(l) ==> r.left matches Some(b) && *b == l,
            left is None ==> r.left is None,
            r.right == right,
    {
        match left {
            Some(l) => Self { left: Some(Box::new(l)), right },
            None => Self { left: None, right },
        }
    }
}

/// A logical-and tier node.
#[derive(Debug, PartialEq)]
pub struct AndExpression {
    pub left: Option<Box<AndExpression>>,
    pub right: EqualExpression,
}

impl AndExpression {
    pub fn new(left: Option<AndExpression>, right: EqualExpression) -> (r: Self)
        ensures
            left matches Some(l) ==> r.left matches Some(b) && *b == l,
            left is None ==> r.left is None,
            r.right == right,
    {
        match left {
            Some(l) => Self { left: Some(Box::new(l)), right },
            None => Self { left: None, right },
        }
    }
}

/// An equality tier node.
#[derive(Debug, PartialEq)]
pub struct EqualExpression {
    pub left: Option<Box<EqualExpression>>,
    pub right: RelationExpression,
}

impl EqualExpression {
    pub fn new(left: Option<EqualExpression>, right: RelationExpression) -> (r: Self)
        ensures
            left matches Some(l) ==> r.left matches Some(b) && *b == l,
            left is None ==> r.left is None,
            r.right == right,
    {
        match left {
            Some(l) => Self { left: Some(Box::new(l)), right },
            None => Self { left: None, right },
        }
    }
}

/// A relational tier node.
#[derive(Debug, PartialEq)]
pub struct RelationExpression {
    pub left: Option<Box<RelationExpression>>,
    pub right: NilCoalescingExpression,
}

impl RelationExpression {
    pub fn new(left: Option<RelationExpression>, right: NilCoalescingExpression) -> (r: Self)
        ensures
            left matches Some(l) ==> r.left matches Some(b) && *b == l,
            left is None ==> r.left is None,
            r.right == right,
    {
        match left {
            Some(l) => Self { left: Some(Box::new(l)), right },
            None => Self { left: None, right },
        }
    }
}

/// A nil-coalescing tier node.
#[derive(Debug, PartialEq)]
pub struct NilCoalescingExpression {
    pub left: Option<Box<NilCoalescingExpression>>,
    pub right: BitwiseOrExpression,
}

impl NilCoalescingExpression {
    pub fn new(left: Option<NilCoalescingExpression>, right: BitwiseOrExpression) -> (r: Self)
        ensures
            left matches Some(l) ==> r.left matches Some(b) && *b == l,
            left is None ==> r.left is None,
            r.right == right,
    {
        match left {
            Some(l) => Self { left: Some(Box::new(l)), right },
            None => Self { left: None, right },
        }
    }
}

/// A bitwise-or tier node.
#[derive(Debug, PartialEq)]
pub struct BitwiseOrExpression {
    pub left: Option<Box<BitwiseOrExpression>>,
    pub right: BitwiseXorExpression,
}

impl BitwiseOrExpression {
    pub fn new(left: Option<BitwiseOrExpression>, right: BitwiseXorExpression) -> (r: Self)
        ensures
            left matches Some(l) ==> r.left matches Some(b) && *b == l,
            left is None ==> r.left is None,
            r.right == right,
    {
        match left {
            Some(l) => Self { left: Some(Box::new(l)), right },
            None => Self { left: None, right },
        }
    }
}

/// A bitwise-xor tier node.
#[derive(Debug, PartialEq)]
pub struct BitwiseXorExpression {
    pub left: Option<Box<BitwiseXorExpression>>,
    pub right: BitwiseAndExpression,
}

impl BitwiseXorExpression {
    pub fn new(left: Option<BitwiseXorExpression>, right: BitwiseAndExpression) -> (r: Self)
        ensures
            left matches Some(l) ==> r.left matches Some(b) && *b == l,
            left is None ==> r.left is None,
            r.right == right,
    {
        match left {
            Some(l) => Self { left: Some(Box::new(l)), right },
            None => Self { left: None, right },
        }
    }
}

/// A bitwise-and tier node.
#[derive(Debug, PartialEq)]
pub struct BitwiseAndExpression {
    pub left: Option<Box<BitwiseAndExpression>>,
    pub right: BitwiseShiftExpression,
}

impl BitwiseAndExpression {
    pub fn new(left: Option<BitwiseAndExpression>, right: BitwiseShiftExpression) -> (r: Self)
        ensures
            left matches Some(l) ==> r.left matches Some(b) && *b == l,
            left is None ==> r.left is None,
            r.right == right,
    {
        match left {
            Some(l) => Self { left: Some(Box::new(l)), right },
            None => Self { left: None, right },
        }
    }
}

/// A shift tier node.
#[derive(Debug, PartialEq)]
pub struct BitwiseShiftExpression {
    pub left: Option<Box<BitwiseShiftExpression>>,
    pub right: AdditiveExpression,
}

impl BitwiseShiftExpression {
    pub fn new(left: Option<BitwiseShiftExpression>, right: AdditiveExpression) -> (r: Self)
        ensures
            left matches Some(l) ==> r.left matches Some(b) && *b == l,
            left is None ==> r.left is None,
            r.right == right,
    {
        match left {
            Some(l) => Self { left: Some(Box::new(l)), right },
            None => Self { left: None, right },
        }
    }
}

/// An additive tier node.
#[derive(Debug, PartialEq)]
pub struct AdditiveExpression {
    pub left: Option<Box<AdditiveExpression>>,
    pub right: MultiplicativeExpression,
}

impl AdditiveExpression {
    pub fn new(left: Option<AdditiveExpression>, right: MultiplicativeExpression) -> (r: Self)
        ensures
            left matches Some(l) ==> r.left matches Some(b) && *b == l,
            left is None ==> r.left is None,
            r.right == right,
    {
        match left {
            Some(l) => Self { left: Some(Box::new(l)), right },
            None => Self { left: None, right },
        }
    }
}

/// A multiplicative tier node.
#[derive(Debug, PartialEq)]
pub struct MultiplicativeExpression {
    pub left: Option<Box<MultiplicativeExpression>>,
    pub right: CastingExpression,
}

impl MultiplicativeExpression {
    pub fn new(left: Option<MultiplicativeExpression>, right: CastingExpression) -> (r: Self)
        ensures
            left matches Some(l) ==> r.left matches Some(b) && *b == l,
            left is None ==> r.left is None,
            r.right == right,
    {
        match left {
            Some(l) => Self { left: Some(Box::new(l)), right },
            None => Self { left: None, right },
        }
    }
}

/// A casting tier node: the right operand is a type annotation, not an
/// expression.
#[derive(Debug, PartialEq)]
pub struct CastingExpression {
    pub left: UnaryExpression,
    pub right: TypeAnnotation,
}

impl CastingExpression {
    pub fn new(left: UnaryExpression, right: TypeAnnotation) -> (r: Self)
        ensures
            r.left == left,
            r.right == right,
    {
        Self { left, right }
    }
}

/// A unary tier node: a primary operand under a chain of prefixes.
#[derive(Debug, PartialEq)]
pub struct UnaryExpression {
    pub left: PrimaryExpression,
    pub right: Option<Box<UnaryExpression>>,
}

impl UnaryExpression {
    pub fn new(left: PrimaryExpression, right: Option<UnaryExpression>) -> (r: Self)
        ensures
            r.left == left,
            right matches Some(u) ==> r.right matches Some(b) && *b == u,
            right is None ==> r.right is None,
    {
        match right {
            Some(u) => Self { left, right: Some(Box::new(u)) },
            None => Self { left, right: None },
        }
    }
}

/// A primary form: a keyword-led construct or a postfix chain.
#[derive(Debug, PartialEq)]
pub enum PrimaryExpression {
    Create,
    Destroy,
    Reference(Box<ReferenceExpression>),
    Postfix(Box<PostfixExpression>),
}

/// A postfix form: a terminal, a call, a parenthesized factor, or a forced
/// unwrap.
#[derive(Debug, PartialEq)]
pub enum PostfixExpression {
    Identifier(String),
    Literal(String),
    Fun(String),
    Factor(Box<Expression>),
    Exclaim(Box<PostfixExpression>),
}

/// A reference to an expression at a given type.
#[derive(Debug, PartialEq)]
pub struct ReferenceExpression {
    pub exp: Box<Expression>,
    pub full_type: FullType,
}

/// An access into an expression: by member or by bracket.
#[derive(Debug, PartialEq)]
pub enum ExpressionAccess {
    MemberAcceess(Box<MemberAccess>),
    BracketExpression(Box<BracketExpression>),
}

/// A member access, optionally through the nil-propagating form.
#[derive(Debug, PartialEq)]
pub struct MemberAccess {
    pub optional: bool,
    pub exp: Box<BracketExpression>,
}

impl MemberAccess {
    pub fn new(optional: bool, exp: BracketExpression) -> (r: Self)
        ensures
            r.optional == optional,
            *r.exp == exp,
    {
        Self { optional, exp: Box::new(exp) }
    }
}

/// A bracketed expression.
#[derive(Debug, PartialEq)]
pub struct BracketExpression {
    pub exp: Box<Expression>,
}

impl BracketExpression {
    pub fn new(exp: Expression) -> (r: Self)
        ensures
            *r.exp == exp,
    {
        Self { exp: Box::new(exp) }
    }
}

/// A type as written: a plain name, a reference `&Name`, or an authorized
/// reference `auth &Name`.
#[derive(Debug, PartialEq)]
pub enum FullType {
    AuthReference(String),
    Reference(String),
    Inner(String),
}

impl Clone for FullType {
    /// A clone spells the same type as the original.
    fn clone(&self) -> (r: Self)
        ensures
            r@ == self@,
    {
        match self {
            FullType::AuthReference(s) => FullType::AuthReference(s.clone()),
            FullType::Reference(s) => FullType::Reference(s.clone()),
            FullType::Inner(s) => FullType::Inner(s.clone()),
        }
    }
}

/// Mathematical model of a type as written.
pub enum FullTypeV {
    AuthReference(Seq<char>),
    Reference(Seq<char>),
    Inner(Seq<char>),
}

impl View for FullType {
    type V = FullTypeV;

    open spec fn view(&self) -> FullTypeV {
        match self {
            FullType::AuthReference(s) => FullTypeV::AuthReference(s@),
            FullType::Reference(s) => FullTypeV::Reference(s@),
            FullType::Inner(s) => FullTypeV::Inner(s@),
        }
    }
}

/// A call argument in layered form: an expression with an optional label.
#[derive(Debug, PartialEq)]
pub struct Argument {
    pub id: Option<String>,
    pub exp: Box<Expression>,
}

impl Argument {
    pub fn new(id: Option<String>, exp: Expression) -> (r: Self)
        ensures
            r.id == id,
            *r.exp == exp,
    {
        Self { id, exp: Box::new(exp) }
    }
}

/// A typed value.
#[derive(Debug, PartialEq)]
pub struct Value {
    pub value_type: FullType,
    pub value: usize,
}

/// A type annotation: a type, optionally marked as a linear resource type.
#[derive(Debug, PartialEq)]
pub struct TypeAnnotation {
    pub is_resource: bool,
    pub full_type: FullType,
}

} // verus!
