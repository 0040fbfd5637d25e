//! The token model: a closed set of token kinds plus a `Token` record
//! carrying kind, source offset and byte length.

use vstd::prelude::*;

verus! {

/// A classified, located lexeme. `at` and `size` index the original source
/// buffer; a token is immutable once produced.
#[derive(Debug, PartialEq)]
pub struct Token {
    pub kind: TokenKind,
    pub at: usize,
    pub size: usize,
}

impl Token {
    pub fn new(kind: TokenKind, at: usize, size: usize) -> (r: Self)
        ensures
            r.kind == kind && r.at == at && r.size == size,
    {
        Token { kind, at, size }
    }

    pub fn new_c(kind: TokenKind, at: usize) -> (r: Self)
        ensures
            r.kind == kind && r.at == at && r.size == 1,
    {
        Token { kind, at, size: 1 }
    }

    pub fn new_none(at: usize, size: usize) -> (r: Self)
        ensures
            r.kind == TokenKind::Unrecognized && r.at == at && r.size == size,
    {
        Token { kind: TokenKind::Unrecognized, at, size }
    }
}

/// The closed set of token kinds. Payload-carrying kinds hold the literal
/// text; numeric literals are stored as raw text, not parsed to a number.
#[derive(Debug, PartialEq)]
pub enum TokenKind {
    ParenOpen,
    ParenClose,
    BracketOpen,
    BracketClose,
    BraceOpen,
    BraceClose,
    AngleOpen,
    AngleClose,
    Comma,
    Dot,
    Plus,
    Minus,
    Asterisk,
    Slash,
    Backslash,
    Percent,
    Question,
    QuestionDot,
    QuestionDouble,
    Exclamation,
    At,
    LogicalConjunction,
    LogicalDisjunction,
    Xor,
    DoubleQuote,
    SingleQuote,
    SemiColon,
    Colon,
    NotEqual,
    LessThan,
    LessThanOrEqual,
    GreaterThan,
    GreaterThanOrEqual,
    Assign,
    EqualTo,
    Swap,
    Move,
    MoveForce,
    BitwiseAnd,
    BitwiseOr,
    BitwiseShiftRight,
    BitwiseShiftLeft,
    String(String),
    Identifier(String),
    Keyword(Keyword),
    Unrecognized,
    EOF,
}


impl Clone for TokenKind {
    /// A clone models the same kind, payload included.
    fn clone(&self) -> (r: Self)
        ensures
            r@ == self@,
    {
        match self {
            TokenKind::ParenOpen => TokenKind::ParenOpen,
            TokenKind::ParenClose => TokenKind::ParenClose,
            TokenKind::BracketOpen => TokenKind::BracketOpen,
            TokenKind::BracketClose => TokenKind::BracketClose,
            TokenKind::BraceOpen => TokenKind::BraceOpen,
            TokenKind::BraceClose => TokenKind::BraceClose,
            TokenKind::AngleOpen => TokenKind::AngleOpen,
            TokenKind::AngleClose => TokenKind::AngleClose,
            TokenKind::Comma => TokenKind::Comma,
            TokenKind::Dot => TokenKind::Dot,
            TokenKind::Plus => TokenKind::Plus,
            TokenKind::Minus => TokenKind::Minus,
            TokenKind::Asterisk => TokenKind::Asterisk,
            TokenKind::Slash => TokenKind::Slash,
            TokenKind::Backslash => TokenKind::Backslash,
            TokenKind::Percent => TokenKind::Percent,
            TokenKind::Question => TokenKind::Question,
            TokenKind::QuestionDot => TokenKind::QuestionDot,
            TokenKind::QuestionDouble => TokenKind::QuestionDouble,
            TokenKind::Exclamation => TokenKind::Exclamation,
            TokenKind::At => TokenKind::At,
            TokenKind::LogicalConjunction => TokenKind::LogicalConjunction,
            TokenKind::LogicalDisjunction => TokenKind::LogicalDisjunction,
            TokenKind::Xor => TokenKind::Xor,
            TokenKind::DoubleQuote => TokenKind::DoubleQuote,
            TokenKind::SingleQuote => TokenKind::SingleQuote,
            TokenKind::SemiColon => TokenKind::SemiColon,
            TokenKind::Colon => TokenKind::Colon,
            TokenKind::NotEqual => TokenKind::NotEqual,
            TokenKind::LessThan => TokenKind::LessThan,
            TokenKind::LessThanOrEqual => TokenKind::LessThanOrEqual,
            TokenKind::GreaterThan => TokenKind::GreaterThan,
            TokenKind::GreaterThanOrEqual => TokenKind::GreaterThanOrEqual,
            TokenKind::Assign => TokenKind::Assign,
            TokenKind::EqualTo => TokenKind::EqualTo,
            TokenKind::Swap => TokenKind::Swap,
            TokenKind::Move => TokenKind::Move,
            TokenKind::MoveForce => TokenKind::MoveForce,
            TokenKind::BitwiseAnd => TokenKind::BitwiseAnd,
            TokenKind::BitwiseOr => TokenKind::BitwiseOr,
            TokenKind::BitwiseShiftRight => TokenKind::BitwiseShiftRight,
            TokenKind::BitwiseShiftLeft => TokenKind::BitwiseShiftLeft,
            TokenKind::String(s) => TokenKind::String(s.clone()),
            TokenKind::Identifier(s) => TokenKind::Identifier(s.clone()),
            TokenKind::Keyword(k) => TokenKind::Keyword(*k),
            TokenKind::Unrecognized => TokenKind::Unrecognized,
            TokenKind::EOF => TokenKind::EOF,
        }
    }
}

impl Clone for Token {
    /// A clone models the same token.
    fn clone(&self) -> (r: Self)
        ensures
            r@ == self@,
    {
        Token { kind: self.kind.clone(), at: self.at, size: self.size }
    }
}

/// Decides whether two token kinds are the same kind with the same payload.
#[verifier::rlimit(100)]
pub fn kinds_match(a: &TokenKind, b: &TokenKind) -> (r: bool)
    ensures
        r == (a@ == b@),
{
    match a {
        TokenKind::ParenOpen => {
            return matches!(b, TokenKind::ParenOpen);
        },
        TokenKind::ParenClose => {
            return matches!(b, TokenKind::ParenClose);
        },
        TokenKind::BracketOpen => {
            return matches!(b, TokenKind::BracketOpen);
        },
        TokenKind::BracketClose => {
            return matches!(b, TokenKind::BracketClose);
        },
        TokenKind::BraceOpen => {
            return matches!(b, TokenKind::BraceOpen);
        },
        TokenKind::BraceClose => {
            return matches!(b, TokenKind::BraceClose);
        },
        TokenKind::AngleOpen => {
            return matches!(b, TokenKind::AngleOpen);
        },
        TokenKind::AngleClose => {
            return matches!(b, TokenKind::AngleClose);
        },
        TokenKind::Comma => {
            return matches!(b, TokenKind::Comma);
        },
        TokenKind::Dot => {
            return matches!(b, TokenKind::Dot);
        },
        TokenKind::Plus => {
            return matches!(b, TokenKind::Plus);
        },
        TokenKind::Minus => {
            return matches!(b, TokenKind::Minus);
        },
        TokenKind::Asterisk => {
            return matches!(b, TokenKind::Asterisk);
        },
        TokenKind::Slash => {
            return matches!(b, TokenKind::Slash);
        },
        TokenKind::Backslash => {
            return matches!(b, TokenKind::Backslash);
        },
        TokenKind::Percent => {
            return matches!(b, TokenKind::Percent);
        },
        TokenKind::Question => {
            return matches!(b, TokenKind::Question);
        },
        TokenKind::QuestionDot => {
            return matches!(b, TokenKind::QuestionDot);
        },
        TokenKind::QuestionDouble => {
            return matches!(b, TokenKind::QuestionDouble);
        },
        TokenKind::Exclamation => {
            return matches!(b, TokenKind::Exclamation);
        },
        TokenKind::At => {
            return matches!(b, TokenKind::At);
        },
        TokenKind::LogicalConjunction => {
            return matches!(b, TokenKind::LogicalConjunction);
        },
        TokenKind::LogicalDisjunction => {
            return matches!(b, TokenKind::LogicalDisjunction);
        },
        TokenKind::Xor => {
            return matches!(b, TokenKind::Xor);
        },
        TokenKind::DoubleQuote => {
            return matches!(b, TokenKind::DoubleQuote);
        },
        TokenKind::SingleQuote => {
            return matches!(b, TokenKind::SingleQuote);
        },
        TokenKind::SemiColon => {
            return matches!(b, TokenKind::SemiColon);
        },
        TokenKind::Colon => {
            return matches!(b, TokenKind::Colon);
        },
        TokenKind::NotEqual => {
            return matches!(b, TokenKind::NotEqual);
        },
        TokenKind::LessThan => {
            return matches!(b, TokenKind::LessThan);
        },
        TokenKind::LessThanOrEqual => {
            return matches!(b, TokenKind::LessThanOrEqual);
        },
        TokenKind::GreaterThan => {
            return matches!(b, TokenKind::GreaterThan);
        },
        TokenKind::GreaterThanOrEqual => {
            return matches!(b, TokenKind::GreaterThanOrEqual);
        },
        TokenKind::Assign => {
            return matches!(b, TokenKind::Assign);
        },
        TokenKind::EqualTo => {
            return matches!(b, TokenKind::EqualTo);
        },
        TokenKind::Swap => {
            return matches!(b, TokenKind::Swap);
        },
        TokenKind::Move => {
            return matches!(b, TokenKind::Move);
        },
        TokenKind::MoveForce => {
            return matches!(b, TokenKind::MoveForce);
        },
        TokenKind::BitwiseAnd => {
            return matches!(b, TokenKind::BitwiseAnd);
        },
        TokenKind::BitwiseOr => {
            return matches!(b, TokenKind::BitwiseOr);
        },
        TokenKind::BitwiseShiftRight => {
            return matches!(b, TokenKind::BitwiseShiftRight);
        },
        TokenKind::BitwiseShiftLeft => {
            return matches!(b, TokenKind::BitwiseShiftLeft);
        },
        TokenKind::String(x) => match b {
            TokenKind::String(y) => {
                return *x == *y;
            },
            _ => {
                return false;
            },
        },
        TokenKind::Identifier(x) => match b {
            TokenKind::Identifier(y) => {
                return *x == *y;
            },
            _ => {
                return false;
            },
        },
        TokenKind::Keyword(x) => match b {
            TokenKind::Keyword(y) => {
                return *x == *y;
            },
            _ => {
                return false;
            },
        },
        TokenKind::Unrecognized => {
            return matches!(b, TokenKind::Unrecognized);
        },
        TokenKind::EOF => {
            return matches!(b, TokenKind::EOF);
        },
    }
}

/// Mathematical model of a token kind: the same tags, with text payloads
/// abstracted to character sequences.
pub enum TokenKindV {
    ParenOpen,
    ParenClose,
    BracketOpen,
    BracketClose,
    BraceOpen,
    BraceClose,
    AngleOpen,
    AngleClose,
    Comma,
    Dot,
    Plus,
    Minus,
    Asterisk,
    Slash,
    Backslash,
    Percent,
    Question,
    QuestionDot,
    QuestionDouble,
    Exclamation,
    At,
    LogicalConjunction,
    LogicalDisjunction,
    Xor,
    DoubleQuote,
    SingleQuote,
    SemiColon,
    Colon,
    NotEqual,
    LessThan,
    LessThanOrEqual,
    GreaterThan,
    GreaterThanOrEqual,
    Assign,
    EqualTo,
    Swap,
    Move,
    MoveForce,
    BitwiseAnd,
    BitwiseOr,
    BitwiseShiftRight,
    BitwiseShiftLeft,
    String(Seq<char>),
    Identifier(Seq<char>),
    Keyword(Keyword),
    Unrecognized,
    EOF,
}

impl View for TokenKind {
    type V = TokenKindV;

    open spec fn view(&self) -> TokenKindV {
        match self {
            TokenKind::ParenOpen => TokenKindV::ParenOpen,
            TokenKind::ParenClose => TokenKindV::ParenClose,
            TokenKind::BracketOpen => TokenKindV::BracketOpen,
            TokenKind::BracketClose => TokenKindV::BracketClose,
            TokenKind::BraceOpen => TokenKindV::BraceOpen,
            TokenKind::BraceClose => TokenKindV::BraceClose,
            TokenKind::AngleOpen => TokenKindV::AngleOpen,
            TokenKind::AngleClose => TokenKindV::AngleClose,
            TokenKind::Comma => TokenKindV::Comma,
            TokenKind::Dot => TokenKindV::Dot,
            TokenKind::Plus => TokenKindV::Plus,
            TokenKind::Minus => TokenKindV::Minus,
            TokenKind::Asterisk => TokenKindV::Asterisk,
            TokenKind::Slash => TokenKindV::Slash,
            TokenKind::Backslash => TokenKindV::Backslash,
            TokenKind::Percent => TokenKindV::Percent,
            TokenKind::Question => TokenKindV::Question,
            TokenKind::QuestionDot => TokenKindV::QuestionDot,
            TokenKind::QuestionDouble => TokenKindV::QuestionDouble,
            TokenKind::Exclamation => TokenKindV::Exclamation,
            TokenKind::At => TokenKindV::At,
            TokenKind::LogicalConjunction => TokenKindV::LogicalConjunction,
            TokenKind::LogicalDisjunction => TokenKindV::LogicalDisjunction,
            TokenKind::Xor => TokenKindV::Xor,
            TokenKind::DoubleQuote => TokenKindV::DoubleQuote,
            TokenKind::SingleQuote => TokenKindV::SingleQuote,
            TokenKind::SemiColon => TokenKindV::SemiColon,
            TokenKind::Colon => TokenKindV::Colon,
            TokenKind::NotEqual => TokenKindV::NotEqual,
            TokenKind::LessThan => TokenKindV::LessThan,
            TokenKind::LessThanOrEqual => TokenKindV::LessThanOrEqual,
            TokenKind::GreaterThan => TokenKindV::GreaterThan,
            TokenKind::GreaterThanOrEqual => TokenKindV::GreaterThanOrEqual,
            TokenKind::Assign => TokenKindV::Assign,
            TokenKind::EqualTo => TokenKindV::EqualTo,
            TokenKind::Swap => TokenKindV::Swap,
            TokenKind::Move => TokenKindV::Move,
            TokenKind::MoveForce => TokenKindV::MoveForce,
            TokenKind::BitwiseAnd => TokenKindV::BitwiseAnd,
            TokenKind::BitwiseOr => TokenKindV::BitwiseOr,
            TokenKind::BitwiseShiftRight => TokenKindV::BitwiseShiftRight,
            TokenKind::BitwiseShiftLeft => TokenKindV::BitwiseShiftLeft,
            TokenKind::String(s) => TokenKindV::String(s@),
            TokenKind::Identifier(s) => TokenKindV::Identifier(s@),
            TokenKind::Keyword(k) => TokenKindV::Keyword(*k),
            TokenKind::Unrecognized => TokenKindV::Unrecognized,
            TokenKind::EOF => TokenKindV::EOF,
        }
    }
}

/// Mathematical model of a whole token.
pub struct TokenV {
    pub kind: TokenKindV,
    pub at: nat,
    pub size: nat,
}

impl View for Token {
    type V = TokenV;

    open spec fn view(&self) -> TokenV {
        TokenV { kind: self.kind@, at: self.at as nat, size: self.size as nat }
    }
}

/// The reserved words of the language.
#[derive(Clone, Copy, Debug, PartialEq, Eq, Structural)]
pub enum Keyword {
    Let,
    Var,
    True,
    False,
    Nil,
    If,
    Else,
    Switch,
    Case,
    Break,
    Default,
    While,
    For,
    In,
    Continue,
    Pub,
    Priv,
    Access,
    All,
    Contract,
    Account,
    Struct,
    Resource,
    Interface,
    Enum,
    Init,
    Get,
    SSet,
    Pre,
    Post,
    SSelf,
    Create,
    Destroy,
    Import,
    From,
    Fun,
    Return,
    Event,
    Emit,
    Transaction,
    Prepare,
    Execute,
    As,
    AsEx,
    AsQu,
}

/// The reserved word, if any, whose spelling is `s`. The `as!` and `as?`
/// forms are assembled by the lexer, never matched here.
pub open spec fn spec_keyword(s: Seq<char>) -> Option<Keyword> {
    if s == "let"@ { Some(Keyword::Let) }
    else if s == "var"@ { Some(Keyword::Var) }
    else if s == "true"@ { Some(Keyword::True) }
    else if s == "false"@ { Some(Keyword::False) }
    else if s == "nil"@ { Some(Keyword::Nil) }
    else if s == "if"@ { Some(Keyword::If) }
    else if s == "else"@ { Some(Keyword::Else) }
    else if s == "switch"@ { Some(Keyword::Switch) }
    else if s == "case"@ { Some(Keyword::Case) }
    else if s == "break"@ { Some(Keyword::Break) }
    else if s == "default"@ { Some(Keyword::Default) }
    else if s == "while"@ { Some(Keyword::While) }
    else if s == "for"@ { Some(Keyword::For) }
    else if s == "in"@ { Some(Keyword::In) }
    else if s == "continue"@ { Some(Keyword::Continue) }
    else if s == "pub"@ { Some(Keyword::Pub) }
    else if s == "priv"@ { Some(Keyword::Priv) }
    else if s == "access"@ { Some(Keyword::Access) }
    else if s == "all"@ { Some(Keyword::All) }
    else if s == "contract"@ { Some(Keyword::Contract) }
    else if s == "account"@ { Some(Keyword::Account) }
    else if s == "struct"@ { Some(Keyword::Struct) }
    else if s == "resource"@ { Some(Keyword::Resource) }
    else if s == "interface"@ { Some(Keyword::Interface) }
    else if s == "enum"@ { Some(Keyword::Enum) }
    else if s == "init"@ { Some(Keyword::Init) }
    else if s == "get"@ { Some(Keyword::Get) }
    else if s == "set"@ { Some(Keyword::SSet) }
    else if s == "pre"@ { Some(Keyword::Pre) }
    else if s == "post"@ { Some(Keyword::Post) }
    else if s == "self"@ { Some(Keyword::SSelf) }
    else if s == "create"@ { Some(Keyword::Create) }
    else if s == "destroy"@ { Some(Keyword::Destroy) }
    else if s == "import"@ { Some(Keyword::Import) }
    else if s == "from"@ { Some(Keyword::From) }
    else if s == "fun"@ { Some(Keyword::Fun) }
    else if s == "return"@ { Some(Keyword::Return) }
    else if s == "event"@ { Some(Keyword::Event) }
    else if s == "emit"@ { Some(Keyword::Emit) }
    else if s == "transaction"@ { Some(Keyword::Transaction) }
    else if s == "prepare"@ { Some(Keyword::Prepare) }
    else if s == "execute"@ { Some(Keyword::Execute) }
    else if s == "as"@ { Some(Keyword::As) }
    else { None }
}

impl Keyword {
    /// Looks the text up in the reserved-word table.
    pub fn from(s: &str) -> (r: Option<Self>)
        ensures
            r == spec_keyword(s@),
    {
        if str_eq(s, "let") { Some(Keyword::Let) }
        else if str_eq(s, "var") { Some(Keyword::Var) }
        else if str_eq(s, "true") { Some(Keyword::True) }
        else if str_eq(s, "false") { Some(Keyword::False) }
        else if str_eq(s, "nil") { Some(Keyword::Nil) }
        else if str_eq(s, "if") { Some(Keyword::If) }
        else if str_eq(s, "else") { Some(Keyword::Else) }
        else if str_eq(s, "switch") { Some(Keyword::Switch) }
        else if str_eq(s, "case") { Some(Keyword::Case) }
        else if str_eq(s, "break") { Some(Keyword::Break) }
        else if str_eq(s, "default") { Some(Keyword::Default) }
        else if str_eq(s, "while") { Some(Keyword::While) }
        else if str_eq(s, "for") { Some(Keyword::For) }
        else if str_eq(s, "in") { Some(Keyword::In) }
        else if str_eq(s, "continue") { Some(Keyword::Continue) }
        else if str_eq(s, "pub") { Some(Keyword::Pub) }
        else if str_eq(s, "priv") { Some(Keyword::Priv) }
        else if str_eq(s, "access") { Some(Keyword::Access) }
        else if str_eq(s, "all") { Some(Keyword::All) }
        else if str_eq(s, "contract") { Some(Keyword::Contract) }
        else if str_eq(s, "account") { Some(Keyword::Account) }
        else if str_eq(s, "struct") { Some(Keyword::Struct) }
        else if str_eq(s, "resource") { Some(Keyword::Resource) }
        else if str_eq(s, "interface") { Some(Keyword::Interface) }
        else if str_eq(s, "enum") { Some(Keyword::Enum) }
        else if str_eq(s, "init") { Some(Keyword::Init) }
        else if str_eq(s, "get") { Some(Keyword::Get) }
        else if str_eq(s, "set") { Some(Keyword::SSet) }
        else if str_eq(s, "pre") { Some(Keyword::Pre) }
        else if str_eq(s, "post") { Some(Keyword::Post) }
        else if str_eq(s, "self") { Some(Keyword::SSelf) }
        else if str_eq(s, "create") { Some(Keyword::Create) }
        else if str_eq(s, "destroy") { Some(Keyword::Destroy) }
        else if str_eq(s, "import") { Some(Keyword::Import) }
        else if str_eq(s, "from") { Some(Keyword::From) }
        else if str_eq(s, "fun") { Some(Keyword::Fun) }
        else if str_eq(s, "return") { Some(Keyword::Return) }
        else if str_eq(s, "event") { Some(Keyword::Event) }
        else if str_eq(s, "emit") { Some(Keyword::Emit) }
        else if str_eq(s, "transaction") { Some(Keyword::Transaction) }
        else if str_eq(s, "prepare") { Some(Keyword::Prepare) }
        else if str_eq(s, "execute") { Some(Keyword::Execute) }
        else if str_eq(s, "as") { Some(Keyword::As) }
        else { None }
    }
}

/// Decides whether two strings spell the same character sequence, by
/// comparing their UTF-8 bytes.
pub fn str_eq(a: &str, b: &str) -> (r: bool)
    ensures
        r == (a@ == b@),
{
    proof {
        vstd::utf8::encode_utf8_decode_utf8(a@);
        vstd::utf8::encode_utf8_decode_utf8(b@);
    }
    let x = a.as_bytes_vec();
    let y = b.as_bytes_vec();
    if x.len() != y.len() {
        return false;
    }
    let n = x.len();
    let mut i: usize = 0;
    while i < n
        invariant
            n == x@.len() && n == y@.len(),
            i <= n,
            x@ == vstd::utf8::encode_utf8(a@),
            y@ == vstd::utf8::encode_utf8(b@),
            forall|j: int| 0 <= j < i ==> x@[j] == y@[j],
        decreases n - i,
    {
        if x[i] != y[i] {
            return false;
        }
        i += 1;
    }
    proof {
        assert(x@ =~= y@);
    }
    true
}

/// The built-in type names of the language. Recognized from identifier text
/// by [`Type::from`]; no other component consumes them yet.
#[derive(Clone, Copy, Debug, PartialEq, Eq, Structural)]
pub enum Type {
    Any,
    AnyStruct,
    AnyResource,
    Never,
    Address,
    Character,
    String,
    Bool,
    Type,
    Number,
    FixedPoint,
    SignedNumber,
    UFix64,
    SignedFixedPoint,
    Fix64,
    Integer,
    UInt,
    Uint8,
    UInt16,
    UInt32,
    UInt64,
    UInt128,
    UInt256,
    Word8,
    Word16,
    Word32,
    Word64,
    SignedInteger,
    Int,
    Int8,
    Int16,
    Int32,
    Int64,
    Int128,
    Int256,
    Block,
    Capability,
    Reference,
    Path,
    StoragePath,
    CapabilityPath,
    PublicPath,
    PrivatePath,
    Function,
    AuthAccount,
    PublicAccount,
    Enum,
    ArrayOfStructs,
    DictionaryOfStructs,
    OptionalOfStructs,
    RestrictionOfStructs,
    ArrayOfResources,
    DictionaryOfResources,
    OptionalOfResources,
    RestrictionOfResources,
}

/// The built-in type, if any, whose name is `s`.
pub open spec fn spec_type(s: Seq<char>) -> Option<Type> {
    if s == "Any"@ { Some(Type::Any) }
    else if s == "AnyStruct"@ { Some(Type::AnyStruct) }
    else if s == "AnyResource"@ { Some(Type::AnyResource) }
    else if s == "Never"@ { Some(Type::Never) }
    else if s == "Address"@ { Some(Type::Address) }
    else if s == "Character"@ { Some(Type::Character) }
    else if s == "String"@ { Some(Type::String) }
    else if s == "Bool"@ { Some(Type::Bool) }
    else if s == "Type"@ { Some(Type::Type) }
    else if s == "Number"@ { Some(Type::Number) }
    else if s == "FixedPoint"@ { Some(Type::FixedPoint) }
    else if s == "SignedNumber"@ { Some(Type::SignedNumber) }
    else if s == "UFix64"@ { Some(Type::UFix64) }
    else if s == "SignedFixedPoint"@ { Some(Type::SignedFixedPoint) }
    else if s == "Fix64"@ { Some(Type::Fix64) }
    else if s == "Integer"@ { Some(Type::Integer) }
    else if s == "UInt"@ { Some(Type::UInt) }
    else if s == "Uint8"@ { Some(Type::Uint8) }
    else if s == "UInt16"@ { Some(Type::UInt16) }
    else if s == "UInt32"@ { Some(Type::UInt32) }
    else if s == "UInt64"@ { Some(Type::UInt64) }
    else if s == "UInt128"@ { Some(Type::UInt128) }
    else if s == "UInt256"@ { Some(Type::UInt256) }
    else if s == "Word8"@ { Some(Type::Word8) }
    else if s == "Word16"@ { Some(Type::Word16) }
    else if s == "Word32"@ { Some(Type::Word32) }
    else if s == "Word64"@ { Some(Type::Word64) }
    else if s == "SignedInteger"@ { Some(Type::SignedInteger) }
    else if s == "Int"@ { Some(Type::Int) }
    else if s == "Int8"@ { Some(Type::Int8) }
    else if s == "Int16"@ { Some(Type::Int16) }
    else if s == "Int32"@ { Some(Type::Int32) }
    else if s == "Int64"@ { Some(Type::Int64) }
    else if s == "Int128"@ { Some(Type::Int128) }
    else if s == "Int256"@ { Some(Type::Int256) }
    else if s == "Block"@ { Some(Type::Block) }
    else if s == "Capability"@ { Some(Type::Capability) }
    else if s == "Reference"@ { Some(Type::Reference) }
    else if s == "Path"@ { Some(Type::Path) }
    else if s == "StoragePath"@ { Some(Type::StoragePath) }
    else if s == "CapabilityPath"@ { Some(Type::CapabilityPath) }
    else if s == "PublicPath"@ { Some(Type::PublicPath) }
    else if s == "PrivatePath"@ { Some(Type::PrivatePath) }
    else if s == "Function"@ { Some(Type::Function) }
    else if s == "AuthAccount"@ { Some(Type::AuthAccount) }
    else if s == "PublicAccount"@ { Some(Type::PublicAccount) }
    else if s == "Enum"@ { Some(Type::Enum) }
    else if s == "ArrayOfStructs"@ { Some(Type::ArrayOfStructs) }
    else if s == "DictionaryOfStructs"@ { Some(Type::DictionaryOfStructs) }
    else if s == "OptionalOfStructs"@ { Some(Type::OptionalOfStructs) }
    else if s == "RestrictionOfStructs"@ { Some(Type::RestrictionOfStructs) }
    else if s == "ArrayOfResources"@ { Some(Type::ArrayOfResources) }
    else if s == "DictionaryOfResources"@ { Some(Type::DictionaryOfResources) }
    else if s == "OptionalOfResources"@ { Some(Type::OptionalOfResources) }
    else if s == "RestrictionOfResources"@ { Some(Type::RestrictionOfResources) }
    else { None }
}

impl Type {
    /// Looks the text up in the built-in type table.
    pub fn from(s: &str) -> (r: Option<Self>)
        ensures
            r == spec_type(s@),
    {
        if str_eq(s, "Any") { Some(Type::Any) }
        else if str_eq(s, "AnyStruct") { Some(Type::AnyStruct) }
        else if str_eq(s, "AnyResource") { Some(Type::AnyResource) }
        else if str_eq(s, "Never") { Some(Type::Never) }
        else if str_eq(s, "Address") { Some(Type::Address) }
        else if str_eq(s, "Character") { Some(Type::Character) }
        else if str_eq(s, "String") { Some(Type::String) }
        else if str_eq(s, "Bool") { Some(Type::Bool) }
        else if str_eq(s, "Type") { Some(Type::Type) }
        else if str_eq(s, "Number") { Some(Type::Number) }
        else if str_eq(s, "FixedPoint") { Some(Type::FixedPoint) }
        else if str_eq(s, "SignedNumber") { Some(Type::SignedNumber) }
        else if str_eq(s, "UFix64") { Some(Type::UFix64) }
        else if str_eq(s, "SignedFixedPoint") { Some(Type::SignedFixedPoint) }
        else if str_eq(s, "Fix64") { Some(Type::Fix64) }
        else if str_eq(s, "Integer") { Some(Type::Integer) }
        else if str_eq(s, "UInt") { Some(Type::UInt) }
        else if str_eq(s, "Uint8") { Some(Type::Uint8) }
        else if str_eq(s, "UInt16") { Some(Type::UInt16) }
        else if str_eq(s, "UInt32") { Some(Type::UInt32) }
        else if str_eq(s, "UInt64") { Some(Type::UInt64) }
        else if str_eq(s, "UInt128") { Some(Type::UInt128) }
        else if str_eq(s, "UInt256") { Some(Type::UInt256) }
        else if str_eq(s, "Word8") { Some(Type::Word8) }
        else if str_eq(s, "Word16") { Some(Type::Word16) }
        else if str_eq(s, "Word32") { Some(Type::Word32) }
        else if str_eq(s, "Word64") { Some(Type::Word64) }
        else if str_eq(s, "SignedInteger") { Some(Type::SignedInteger) }
        else if str_eq(s, "Int") { Some(Type::Int) }
        else if str_eq(s, "Int8") { Some(Type::Int8) }
        else if str_eq(s, "Int16") { Some(Type::Int16) }
        else if str_eq(s, "Int32") { Some(Type::Int32) }
        else if str_eq(s, "Int64") { Some(Type::Int64) }
        else if str_eq(s, "Int128") { Some(Type::Int128) }
        else if str_eq(s, "Int256") { Some(Type::Int256) }
        else if str_eq(s, "Block") { Some(Type::Block) }
        else if str_eq(s, "Capability") { Some(Type::Capability) }
        else if str_eq(s, "Reference") { Some(Type::Reference) }
        else if str_eq(s, "Path") { Some(Type::Path) }
        else if str_eq(s, "StoragePath") { Some(Type::StoragePath) }
        else if str_eq(s, "CapabilityPath") { Some(Type::CapabilityPath) }
        else if str_eq(s, "PublicPath") { Some(Type::PublicPath) }
        else if str_eq(s, "PrivatePath") { Some(Type::PrivatePath) }
        else if str_eq(s, "Function") { Some(Type::Function) }
        else if str_eq(s, "AuthAccount") { Some(Type::AuthAccount) }
        else if str_eq(s, "PublicAccount") { Some(Type::PublicAccount) }
        else if str_eq(s, "Enum") { Some(Type::Enum) }
        else if str_eq(s, "ArrayOfStructs") { Some(Type::ArrayOfStructs) }
        else if str_eq(s, "DictionaryOfStructs") { Some(Type::DictionaryOfStructs) }
        else if str_eq(s, "OptionalOfStructs") { Some(Type::OptionalOfStructs) }
        else if str_eq(s, "RestrictionOfStructs") { Some(Type::RestrictionOfStructs) }
        else if str_eq(s, "ArrayOfResources") { Some(Type::ArrayOfResources) }
        else if str_eq(s, "DictionaryOfResources") { Some(Type::DictionaryOfResources) }
        else if str_eq(s, "OptionalOfResources") { Some(Type::OptionalOfResources) }
        else if str_eq(s, "RestrictionOfResources") { Some(Type::RestrictionOfResources) }
        else { None }
    }
}

} // verus!
