//! The syntax-tree model: a closed set of node kinds wrapped in a `Node`
//! value, recursive and exclusively owned top-down, together with the
//! canonical text rendering used as the stable output format.

use vstd::prelude::*;
use vstd::string::StringExecFns;
use crate::expression::{FullType, FullTypeV};

verus! {

/// A syntax-tree node; wraps exactly one [`NodeKind`].
#[derive(Debug, PartialEq)]
pub struct Node {
    pub kind: NodeKind,
}

impl Node {
    pub fn new(kind: NodeKind) -> (r: Self)
        ensures
            r.kind == kind,
    {
        Self { kind }
    }
}

/// The closed set of node kinds. Every composite variant exclusively owns
/// its children.
#[derive(Debug, PartialEq)]
pub enum NodeKind {
    Expression(Expression),
    BinaryOperation(Box<Node>, Box<Node>, BinaryOperation),
    UnaryOperation(Box<Node>, Vec<UnaryOperation>),
    Destroy(Box<Node>),
    TerminalString(String),
    TerminalVariable(String),
    TerminalNumber(String),
    TerminalIdentifier(String),
    ResourceTypeAnnotation(FullType),
    TypeAnnotation(FullType),
    Argument(ArgumentExp),
}

/// A whole expression, marking the root the expression grammar produced.
/// Its rendering is transparent.
#[derive(Debug, PartialEq)]
pub struct Expression {
    pub exp: Box<Node>,
}

impl Expression {
    pub fn new(node: Node) -> (r: Self)
        ensures
            *r.exp == node,
    {
        Self { exp: Box::new(node) }
    }
}

/// A call argument: an expression with an optional label.
#[derive(Debug, PartialEq)]
pub struct ArgumentExp {
    pub id: Option<String>,
    pub exp: Box<Node>,
}

impl ArgumentExp {
    pub fn new(id: Option<String>, exp: Node) -> (r: Self)
        ensures
            r.id == id,
            *r.exp == exp,
    {
        Self { id, exp: Box::new(exp) }
    }
}


/// Mathematical model of a node: the same shapes as [`NodeKind`], with
/// text payloads abstracted to character sequences and child vectors to
/// sequences. Both a [`Node`] and its [`NodeKind`] view to this type; the
/// wrapping struct adds nothing.
pub enum NodeV {
    Expression(Box<NodeV>),
    BinaryOperation(Box<NodeV>, Box<NodeV>, BinaryOperation),
    UnaryOperation(Box<NodeV>, Seq<UnaryOperation>),
    Destroy(Box<NodeV>),
    TerminalString(Seq<char>),
    TerminalVariable(Seq<char>),
    TerminalNumber(Seq<char>),
    TerminalIdentifier(Seq<char>),
    ResourceTypeAnnotation(FullTypeV),
    TypeAnnotation(FullTypeV),
    Argument(Option<Seq<char>>, Box<NodeV>),
}

/// The model of a node kind.
pub open spec fn view_kind(k: NodeKind) -> NodeV
    decreases k,
{
    match k {
        NodeKind::Expression(e) => NodeV::Expression(Box::new(view_node(*e.exp))),
        NodeKind::BinaryOperation(l, r, op) => NodeV::BinaryOperation(
            Box::new(view_node(*l)),
            Box::new(view_node(*r)),
            op,
        ),
        NodeKind::UnaryOperation(n, ops) => NodeV::UnaryOperation(
            Box::new(view_node(*n)),
            ops@,
        ),
        NodeKind::Destroy(n) => NodeV::Destroy(Box::new(view_node(*n))),
        NodeKind::TerminalString(s) => NodeV::TerminalString(s@),
        NodeKind::TerminalVariable(s) => NodeV::TerminalVariable(s@),
        NodeKind::TerminalNumber(s) => NodeV::TerminalNumber(s@),
        NodeKind::TerminalIdentifier(s) => NodeV::TerminalIdentifier(s@),
        NodeKind::ResourceTypeAnnotation(t) => NodeV::ResourceTypeAnnotation(t@),
        NodeKind::TypeAnnotation(t) => NodeV::TypeAnnotation(t@),
        NodeKind::Argument(a) => NodeV::Argument(
            match a.id {
                Some(id) => Some(id@),
                None => None,
            },
            Box::new(view_node(*a.exp)),
        ),
    }
}

/// The model of a node.
pub open spec fn view_node(n: Node) -> NodeV
    decreases n,
{
    view_kind(n.kind)
}

impl View for NodeKind {
    type V = NodeV;

    open spec fn view(&self) -> NodeV {
        view_kind(*self)
    }
}

impl View for Node {
    type V = NodeV;

    open spec fn view(&self) -> NodeV {
        view_node(*self)
    }
}

/// The closed set of binary operator tags. The tags carry no precedence;
/// precedence is encoded by which parser tier builds the node.
#[derive(Clone, Copy, Debug, PartialEq, Eq, Structural)]
pub enum BinaryOperation {
    As,
    AsQuestion,
    AsExclamation,
    Mul,
    Div,
    Mod,
    Add,
    Sub,
    Shir,
    Shil,
    And,
    Xor,
    Or,
    NilCo,
    Lt,
    Gt,
    Lte,
    Gte,
    Eq,
    Neq,
    AndAnd,
    OrOr,
}

/// The closed set of prefix operator tags.
#[derive(Clone, Copy, Debug, PartialEq, Eq, Structural)]
pub enum UnaryOperation {
    Minus,
    Negate,
    Move,
}

/// The canonical name of a binary operator tag.
pub open spec fn op_text(op: BinaryOperation) -> Seq<char> {
    match op {
        BinaryOperation::As => "As"@,
        BinaryOperation::AsQuestion => "AsQuestion"@,
        BinaryOperation::AsExclamation => "AsExclamation"@,
        BinaryOperation::Mul => "Mul"@,
        BinaryOperation::Div => "Div"@,
        BinaryOperation::Mod => "Mod"@,
        BinaryOperation::Add => "Add"@,
        BinaryOperation::Sub => "Sub"@,
        BinaryOperation::Shir => "Shir"@,
        BinaryOperation::Shil => "Shil"@,
        BinaryOperation::And => "And"@,
        BinaryOperation::Xor => "Xor"@,
        BinaryOperation::Or => "Or"@,
        BinaryOperation::NilCo => "NilCo"@,
        BinaryOperation::Lt => "Lt"@,
        BinaryOperation::Gt => "Gt"@,
        BinaryOperation::Lte => "Lte"@,
        BinaryOperation::Gte => "Gte"@,
        BinaryOperation::Eq => "Eq"@,
        BinaryOperation::Neq => "Neq"@,
        BinaryOperation::AndAnd => "AndAnd"@,
        BinaryOperation::OrOr => "OrOr"@,
    }
}

/// The canonical name of a prefix operator tag.
pub open spec fn unop_text(op: UnaryOperation) -> Seq<char> {
    match op {
        UnaryOperation::Minus => "Minus"@,
        UnaryOperation::Negate => "Negate"@,
        UnaryOperation::Move => "Move"@,
    }
}

/// The canonical rendering of a type: `Type{name}`, `Type{&name}`, or
/// `Type{auth &name}`.
pub open spec fn full_type_text(t: FullTypeV) -> Seq<char> {
    match t {
        FullTypeV::AuthReference(s) => "Type{auth &"@ + s + "}"@,
        FullTypeV::Reference(s) => "Type{&"@ + s + "}"@,
        FullTypeV::Inner(s) => "Type{"@ + s + "}"@,
    }
}

/// The prefix operator names from index `i` on, joined by `, `.
pub open spec fn ops_text_from(ops: Seq<UnaryOperation>, i: int) -> Seq<char>
    decreases ops.len() - i when 0 <= i <= ops.len()
{
    if i >= ops.len() {
        Seq::empty()
    } else if i == ops.len() - 1 {
        unop_text(ops[i])
    } else {
        unop_text(ops[i]) + ", "@ + ops_text_from(ops, i + 1)
    }
}

/// The canonical text rendering of a node: `Op{lhs, rhs}` for binary
/// operations, `[op, …]{operand}` for prefixed operands, `Destroy{…}`,
/// `str(x)` / `var(x)` / `num(x)` / `id(x)` for terminals, `Type{…}` forms
/// for type annotations, and `Arg{label: expr}` for arguments.
pub open spec fn render_model(k: NodeV) -> Seq<char>
    decreases k,
{
    match k {
        NodeV::Expression(e) => render_model(*e),
        NodeV::BinaryOperation(l, r, op) =>
            op_text(op) + "{"@ + render_model(*l) + ", "@ + render_model(*r) + "}"@,
        NodeV::UnaryOperation(n, ops) => {
            if ops.len() == 0 {
                render_model(*n)
            } else {
                "["@ + ops_text_from(ops, 0) + "]"@ + "{"@ + render_model(*n) + "}"@
            }
        },
        NodeV::Destroy(n) => "Destroy{"@ + render_model(*n) + "}"@,
        NodeV::TerminalString(s) => "str("@ + s + ")"@,
        NodeV::TerminalVariable(s) => "var("@ + s + ")"@,
        NodeV::TerminalNumber(s) => "num("@ + s + ")"@,
        NodeV::TerminalIdentifier(s) => "id("@ + s + ")"@,
        NodeV::ResourceTypeAnnotation(t) => "@"@ + full_type_text(t),
        NodeV::TypeAnnotation(t) => full_type_text(t),
        NodeV::Argument(id, e) => {
            let label = match id {
                Some(name) => name + ": "@,
                None => Seq::<char>::empty(),
            };
            "Arg{"@ + label + render_model(*e) + "}"@
        },
    }
}

/// The canonical name of a binary operator tag.
fn op_name(op: &BinaryOperation) -> (r: &'static str)
    ensures
        r@ == op_text(*op),
{
    match op {
        BinaryOperation::As => "As",
        BinaryOperation::AsQuestion => "AsQuestion",
        BinaryOperation::AsExclamation => "AsExclamation",
        BinaryOperation::Mul => "Mul",
        BinaryOperation::Div => "Div",
        BinaryOperation::Mod => "Mod",
        BinaryOperation::Add => "Add",
        BinaryOperation::Sub => "Sub",
        BinaryOperation::Shir => "Shir",
        BinaryOperation::Shil => "Shil",
        BinaryOperation::And => "And",
        BinaryOperation::Xor => "Xor",
        BinaryOperation::Or => "Or",
        BinaryOperation::NilCo => "NilCo",
        BinaryOperation::Lt => "Lt",
        BinaryOperation::Gt => "Gt",
        BinaryOperation::Lte => "Lte",
        BinaryOperation::Gte => "Gte",
        BinaryOperation::Eq => "Eq",
        BinaryOperation::Neq => "Neq",
        BinaryOperation::AndAnd => "AndAnd",
        BinaryOperation::OrOr => "OrOr",
    }
}

/// The canonical name of a prefix operator tag.
fn unop_name(op: &UnaryOperation) -> (r: &'static str)
    ensures
        r@ == unop_text(*op),
{
    match op {
        UnaryOperation::Minus => "Minus",
        UnaryOperation::Negate => "Negate",
        UnaryOperation::Move => "Move",
    }
}

impl Node {
    /// Renders the node to its canonical text form.
    pub fn render(&self) -> (r: String)
        ensures
            r@ == render_model(self@),
        decreases *self,
    {
        self.kind.render()
    }
}

impl NodeKind {
    /// Renders the node kind to its canonical text form.
    pub fn render(&self) -> (r: String)
        ensures
            r@ == render_model(self@),
        decreases *self,
    {
        match self {
            NodeKind::Expression(e) => e.exp.render(),
            NodeKind::BinaryOperation(l, r, op) => {
                let mut out = String::new();
                out.append(op_name(op));
                out.append("{");
                let ls = l.render();
                out.append(ls.as_str());
                out.append(", ");
                let rs = r.render();
                out.append(rs.as_str());
                out.append("}");
                proof {
                    assert(out@ =~= render_model(self@));
                }
                out
            },
            NodeKind::UnaryOperation(n, ops) => {
                if ops.len() == 0 {
                    n.render()
                } else {
                    let mut out = String::new();
                    out.append("[");
                    let list = render_ops_from(ops, 0);
                    out.append(list.as_str());
                    out.append("]");
                    out.append("{");
                    let ns = n.render();
                    out.append(ns.as_str());
                    out.append("}");
                    proof {
                        assert(out@ =~= render_model(self@));
                    }
                    out
                }
            },
            NodeKind::Destroy(n) => {
                let mut out = String::new();
                out.append("Destroy{");
                let ns = n.render();
                out.append(ns.as_str());
                out.append("}");
                proof {
                    assert(out@ =~= render_model(self@));
                }
                out
            },
            NodeKind::TerminalString(s) => {
                let mut out = String::new();
                out.append("str(");
                out.append(s.as_str());
                out.append(")");
                proof {
                    assert(out@ =~= render_model(self@));
                }
                out
            },
            NodeKind::TerminalVariable(s) => {
                let mut out = String::new();
                out.append("var(");
                out.append(s.as_str());
                out.append(")");
                proof {
                    assert(out@ =~= render_model(self@));
                }
                out
            },
            NodeKind::TerminalNumber(s) => {
                let mut out = String::new();
                out.append("num(");
                out.append(s.as_str());
                out.append(")");
                proof {
                    assert(out@ =~= render_model(self@));
                }
                out
            },
            NodeKind::TerminalIdentifier(s) => {
                let mut out = String::new();
                out.append("id(");
                out.append(s.as_str());
                out.append(")");
                proof {
                    assert(out@ =~= render_model(self@));
                }
                out
            },
            NodeKind::ResourceTypeAnnotation(t) => {
                let mut out = String::new();
                out.append("@");
                let ts = render_full_type(t);
                out.append(ts.as_str());
                proof {
                    assert(out@ =~= render_model(self@));
                }
                out
            },
            NodeKind::TypeAnnotation(t) => render_full_type(t),
            NodeKind::Argument(a) => {
                let mut out = String::new();
                out.append("Arg{");
                match &a.id {
                    Some(id) => {
                        out.append(id.as_str());
                        out.append(": ");
                    },
                    None => {},
                }
                let es = a.exp.render();
                out.append(es.as_str());
                out.append("}");
                proof {
                    assert(out@ =~= render_model(self@));
                }
                out
            },
        }
    }
}

/// Renders a type to its canonical `Type{…}` form.
fn render_full_type(t: &FullType) -> (r: String)
    ensures
        r@ == full_type_text(t@),
{
    let mut out = String::new();
    match t {
        FullType::AuthReference(s) => {
            out.append("Type{auth &");
            out.append(s.as_str());
            out.append("}");
        },
        FullType::Reference(s) => {
            out.append("Type{&");
            out.append(s.as_str());
            out.append("}");
        },
        FullType::Inner(s) => {
            out.append("Type{");
            out.append(s.as_str());
            out.append("}");
        },
    }
    proof {
        assert(out@ =~= full_type_text(t@));
    }
    out
}

/// Renders the prefix operator names from index `i` on, joined by `, `.
fn render_ops_from(ops: &Vec<UnaryOperation>, i: usize) -> (r: String)
    requires
        i <= ops@.len(),
    ensures
        r@ == ops_text_from(ops@, i as int),
    decreases ops@.len() - i,
{
    let mut out = String::new();
    if i >= ops.len() {
        return out;
    }
    out.append(unop_name(&ops[i]));
    if i + 1 < ops.len() {
        out.append(", ");
        let rest = render_ops_from(ops, i + 1);
        out.append(rest.as_str());
    }
    proof {
        assert(out@ =~= ops_text_from(ops@, i as int));
    }
    out
}

impl Clone for Node {
    /// A clone models the same tree as the original.
    fn clone(&self) -> (r: Self)
        ensures
            r@ == self@,
        decreases *self,
    {
        Node { kind: self.kind.clone() }
    }
}

impl Clone for NodeKind {
    /// A clone models the same tree as the original.
    fn clone(&self) -> (r: Self)
        ensures
            r@ == self@,
        decreases *self,
    {
        match self {
            NodeKind::Expression(e) => NodeKind::Expression(e.clone()),
            NodeKind::BinaryOperation(l, r, op) => NodeKind::BinaryOperation(
                Box::new(Node::clone(l)),
                Box::new(Node::clone(r)),
                *op,
            ),
            NodeKind::UnaryOperation(n, ops) => NodeKind::UnaryOperation(
                Box::new(Node::clone(n)),
                clone_ops(ops),
            ),
            NodeKind::Destroy(n) => NodeKind::Destroy(Box::new(Node::clone(n))),
            NodeKind::TerminalString(s) => NodeKind::TerminalString(s.clone()),
            NodeKind::TerminalVariable(s) => NodeKind::TerminalVariable(s.clone()),
            NodeKind::TerminalNumber(s) => NodeKind::TerminalNumber(s.clone()),
            NodeKind::TerminalIdentifier(s) => NodeKind::TerminalIdentifier(s.clone()),
            NodeKind::ResourceTypeAnnotation(t) => NodeKind::ResourceTypeAnnotation(t.clone()),
            NodeKind::TypeAnnotation(t) => NodeKind::TypeAnnotation(t.clone()),
            NodeKind::Argument(a) => NodeKind::Argument(a.clone()),
        }
    }
}

impl Clone for Expression {
    /// A clone models the same tree as the original.
    fn clone(&self) -> (r: Self)
        ensures
            NodeV::Expression(Box::new(view_node(*r.exp)))
                == NodeV::Expression(Box::new(view_node(*self.exp))),
        decreases *self,
    {
        Expression { exp: Box::new(Node::clone(&self.exp)) }
    }
}

impl Clone for ArgumentExp {
    /// A clone carries the same label and models the same expression.
    fn clone(&self) -> (r: Self)
        ensures
            r.id matches Some(l) ==> self.id matches Some(m) && l@ == m@,
            r.id is None <==> self.id is None,
            view_node(*r.exp) == view_node(*self.exp),
        decreases *self,
    {
        let id = match &self.id {
            Some(s) => Some(s.clone()),
            None => None,
        };
        ArgumentExp { id, exp: Box::new(Node::clone(&self.exp)) }
    }
}

/// Copies a prefix-operator list.
fn clone_ops(v: &Vec<UnaryOperation>) -> (r: Vec<UnaryOperation>)
    ensures
        r@ == v@,
{
    let mut out: Vec<UnaryOperation> = Vec::new();
    let n = v.len();
    let mut i: usize = 0;
    while i < n
        invariant
            n == v@.len(),
            i <= n,
            out@ == v@.take(i as int),
        decreases n - i,
    {
        out.push(v[i]);
        proof {
            assert(out@ =~= v@.take(i + 1));
        }
        i = i + 1;
    }
    proof {
        assert(out@ =~= v@);
    }
    out
}

} // verus!
