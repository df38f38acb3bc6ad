//! Expressions: column references, literals, and operator applications,
//! parsed by the Pratt parser of [`crate::common::pratt`].

use vstd::prelude::*;

use crate::common::alias::Aliasable;
use crate::common::pratt::{
    next_min_precedence, spec_expr, spec_infix_chain, spec_prefix_or_primary, ExprBuilder,
    ExprParser, InfixOp, OpParser, PrattParser, PrefixOp,
};
use crate::error::{syntax_error, ParserError};
use crate::keyword::Keyword;
use crate::token::{TokenKind, TokenTable};

verus! {

/// A column reference, optionally qualified: `name` or `prefix.name`.
#[derive(Debug, PartialEq, Clone)]
pub struct Field<'a> {
    pub prefix: Option<&'a str>,
    pub name: &'a str,
}

/// The binary operators, from the loosest to the tightest binding.
#[derive(Debug, PartialEq, Eq, Clone, Copy, Structural)]
pub enum BinaryOperator {
    Or,
    And,
    Equal,
    NotEqual,
    Less,
    LessEqual,
    Greater,
    GreaterEqual,
    Like,
    BitOr,
    BitXor,
    BitAnd,
    LeftShift,
    RightShift,
    Plus,
    Subtract,
    Multiply,
    Divide,
    Mod,
}

/// The prefix operators.
#[derive(Debug, PartialEq, Eq, Clone, Copy, Structural)]
pub enum UnaryOperator {
    Not,
    Minus,
    Plus,
}

/// A binary operator applied to two operands.
#[derive(Debug, PartialEq)]
pub struct BinaryOp<'a> {
    pub op: BinaryOperator,
    pub left: Expr<'a>,
    pub right: Expr<'a>,
}

/// A prefix operator applied to an operand.
#[derive(Debug, PartialEq)]
pub struct UnaryOp<'a> {
    pub op: UnaryOperator,
    pub operand: Expr<'a>,
}

/// An expression. Literals keep the source text of their token.
#[derive(Debug, PartialEq)]
pub enum Expr<'a> {
    Field(Field<'a>),
    Number(&'a str),
    Text(&'a str),
    Boolean(bool),
    Null,
    Wildcard,
    BinaryOp(Box<BinaryOp<'a>>),
    UnaryOp(Box<UnaryOp<'a>>),
}

impl<'a> View for Expr<'a> {
    type V = Expr<'a>;

    open spec fn view(&self) -> Expr<'a> {
        *self
    }
}

impl<'a> Aliasable<'a> for Expr<'a> {
    open spec fn spec_aliasable(t: TokenTable<'a>, pos: int) -> (Result<Expr<'a>, ParserError>, int) {
        spec_class_field(t, pos)
    }

    /// A column reference (see [`Expr::class_field`]).
    fn aliasable(token_table: &TokenTable<'a>, cursor: &mut usize) -> (r: Result<Self, ParserError>) {
        Expr::class_field(token_table, cursor)
    }
}

impl InfixOp for BinaryOperator {
    open spec fn spec_precedence(&self) -> u8 {
        match self {
            BinaryOperator::Or => 1,
            BinaryOperator::And => 2,
            BinaryOperator::Equal | BinaryOperator::NotEqual | BinaryOperator::Less
            | BinaryOperator::LessEqual | BinaryOperator::Greater | BinaryOperator::GreaterEqual
            | BinaryOperator::Like => 4,
            BinaryOperator::BitOr => 5,
            BinaryOperator::BitXor => 6,
            BinaryOperator::BitAnd => 7,
            BinaryOperator::LeftShift | BinaryOperator::RightShift => 8,
            BinaryOperator::Plus | BinaryOperator::Subtract => 9,
            BinaryOperator::Multiply | BinaryOperator::Divide | BinaryOperator::Mod => 10,
        }
    }

    open spec fn spec_is_left_associative(&self) -> bool {
        true
    }

    fn precedence(&self) -> (r: u8) {
        match self {
            BinaryOperator::Or => 1,
            BinaryOperator::And => 2,
            BinaryOperator::Equal | BinaryOperator::NotEqual | BinaryOperator::Less
            | BinaryOperator::LessEqual | BinaryOperator::Greater | BinaryOperator::GreaterEqual
            | BinaryOperator::Like => 4,
            BinaryOperator::BitOr => 5,
            BinaryOperator::BitXor => 6,
            BinaryOperator::BitAnd => 7,
            BinaryOperator::LeftShift | BinaryOperator::RightShift => 8,
            BinaryOperator::Plus | BinaryOperator::Subtract => 9,
            BinaryOperator::Multiply | BinaryOperator::Divide | BinaryOperator::Mod => 10,
        }
    }

    fn is_left_associative(&self) -> (r: bool) {
        true
    }
}

impl PrefixOp for UnaryOperator {
    open spec fn spec_precedence(&self) -> u8 {
        match self {
            UnaryOperator::Not => 3,
            UnaryOperator::Minus | UnaryOperator::Plus => 11,
        }
    }

    fn precedence(&self) -> (r: u8) {
        match self {
            UnaryOperator::Not => 3,
            UnaryOperator::Minus | UnaryOperator::Plus => 11,
        }
    }
}

/// The binary operator that a token kind denotes, if any.
pub open spec fn binary_operator_of(k: TokenKind) -> Option<BinaryOperator> {
    match k {
        TokenKind::Keyword(Keyword::Or) => Some(BinaryOperator::Or),
        TokenKind::Keyword(Keyword::And) => Some(BinaryOperator::And),
        TokenKind::Equal => Some(BinaryOperator::Equal),
        TokenKind::NotEqual => Some(BinaryOperator::NotEqual),
        TokenKind::Less => Some(BinaryOperator::Less),
        TokenKind::LessEqual => Some(BinaryOperator::LessEqual),
        TokenKind::Greater => Some(BinaryOperator::Greater),
        TokenKind::GreaterEqual => Some(BinaryOperator::GreaterEqual),
        TokenKind::Keyword(Keyword::Like) => Some(BinaryOperator::Like),
        TokenKind::Or => Some(BinaryOperator::BitOr),
        TokenKind::BitXor => Some(BinaryOperator::BitXor),
        TokenKind::BitAnd => Some(BinaryOperator::BitAnd),
        TokenKind::LeftShift => Some(BinaryOperator::LeftShift),
        TokenKind::RightShift => Some(BinaryOperator::RightShift),
        TokenKind::Plus => Some(BinaryOperator::Plus),
        TokenKind::Subtract => Some(BinaryOperator::Subtract),
        TokenKind::Multiply => Some(BinaryOperator::Multiply),
        TokenKind::Divide => Some(BinaryOperator::Divide),
        TokenKind::Mod => Some(BinaryOperator::Mod),
        _ => None,
    }
}

/// The prefix operator that a token kind denotes, if any.
pub open spec fn unary_operator_of(k: TokenKind) -> Option<UnaryOperator> {
    match k {
        TokenKind::Keyword(Keyword::Not) => Some(UnaryOperator::Not),
        TokenKind::Subtract => Some(UnaryOperator::Minus),
        TokenKind::Plus => Some(UnaryOperator::Plus),
        _ => None,
    }
}

/// Recognises the binary operators of [`binary_operator_of`].
pub struct InfixOps;

/// Recognises the prefix operators of [`unary_operator_of`].
pub struct PrefixOps;

/// Parses the primary expressions of [`spec_primary`].
pub struct PrimaryExpr;

/// Builds [`Expr::BinaryOp`] and [`Expr::UnaryOp`] nodes.
pub struct ExprBuild;

impl OpParser<BinaryOperator> for InfixOps {
    open spec fn spec_try_parse_op(tokens: Seq<TokenKind>, pos: int) -> Option<BinaryOperator> {
        if 0 <= pos < tokens.len() {
            binary_operator_of(tokens[pos])
        } else {
            None
        }
    }

    proof fn lemma_op_at_token(tokens: Seq<TokenKind>, pos: int) {
    }

    fn try_parse_op(token_table: &TokenTable, cursor: &usize) -> (r: Option<BinaryOperator>) {
        match token_table.get_kind(*cursor) {
            Some(TokenKind::Keyword(Keyword::Or)) => Some(BinaryOperator::Or),
            Some(TokenKind::Keyword(Keyword::And)) => Some(BinaryOperator::And),
            Some(TokenKind::Equal) => Some(BinaryOperator::Equal),
            Some(TokenKind::NotEqual) => Some(BinaryOperator::NotEqual),
            Some(TokenKind::Less) => Some(BinaryOperator::Less),
            Some(TokenKind::LessEqual) => Some(BinaryOperator::LessEqual),
            Some(TokenKind::Greater) => Some(BinaryOperator::Greater),
            Some(TokenKind::GreaterEqual) => Some(BinaryOperator::GreaterEqual),
            Some(TokenKind::Keyword(Keyword::Like)) => Some(BinaryOperator::Like),
            Some(TokenKind::Or) => Some(BinaryOperator::BitOr),
            Some(TokenKind::BitXor) => Some(BinaryOperator::BitXor),
            Some(TokenKind::BitAnd) => Some(BinaryOperator::BitAnd),
            Some(TokenKind::LeftShift) => Some(BinaryOperator::LeftShift),
            Some(TokenKind::RightShift) => Some(BinaryOperator::RightShift),
            Some(TokenKind::Plus) => Some(BinaryOperator::Plus),
            Some(TokenKind::Subtract) => Some(BinaryOperator::Subtract),
            Some(TokenKind::Multiply) => Some(BinaryOperator::Multiply),
            Some(TokenKind::Divide) => Some(BinaryOperator::Divide),
            Some(TokenKind::Mod) => Some(BinaryOperator::Mod),
            _ => None,
        }
    }
}

impl OpParser<UnaryOperator> for PrefixOps {
    open spec fn spec_try_parse_op(tokens: Seq<TokenKind>, pos: int) -> Option<UnaryOperator> {
        if 0 <= pos < tokens.len() {
            unary_operator_of(tokens[pos])
        } else {
            None
        }
    }

    proof fn lemma_op_at_token(tokens: Seq<TokenKind>, pos: int) {
    }

    fn try_parse_op(token_table: &TokenTable, cursor: &usize) -> (r: Option<UnaryOperator>) {
        match token_table.get_kind(*cursor) {
            Some(TokenKind::Keyword(Keyword::Not)) => Some(UnaryOperator::Not),
            Some(TokenKind::Subtract) => Some(UnaryOperator::Minus),
            Some(TokenKind::Plus) => Some(UnaryOperator::Plus),
            _ => None,
        }
    }
}

/// A column reference at `pos`: an identifier, optionally followed by a dot
/// and a second identifier (then the first is the prefix).
pub open spec fn spec_class_field<'a>(t: TokenTable<'a>, pos: int) -> (Result<Expr<'a>, ParserError>, int) {
    if t.is_kind(pos, TokenKind::Identifier) {
        if t.is_kind(pos + 1, TokenKind::Dot) {
            if t.is_kind(pos + 2, TokenKind::Identifier) {
                (Ok(Expr::Field(Field { prefix: Some(t.src(pos)), name: t.src(pos + 2) })), pos + 3)
            } else {
                (Err(syntax_error(pos + 2)), pos + 2)
            }
        } else {
            (Ok(Expr::Field(Field { prefix: None, name: t.src(pos) })), pos + 1)
        }
    } else {
        (Err(syntax_error(pos)), pos)
    }
}

/// A primary expression at `pos`: a literal, `NULL`, `TRUE`, `FALSE`, `*`,
/// or a column reference.
pub open spec fn spec_primary<'a>(t: TokenTable<'a>, pos: int) -> (Result<Expr<'a>, ParserError>, int) {
    match t.kind(pos) {
        Some(TokenKind::Number) => (Ok(Expr::Number(t.src(pos))), pos + 1),
        Some(TokenKind::StringLiteral) => (Ok(Expr::Text(t.src(pos))), pos + 1),
        Some(TokenKind::Keyword(Keyword::Null)) => (Ok(Expr::Null), pos + 1),
        Some(TokenKind::Keyword(Keyword::True)) => (Ok(Expr::Boolean(true)), pos + 1),
        Some(TokenKind::Keyword(Keyword::False)) => (Ok(Expr::Boolean(false)), pos + 1),
        Some(TokenKind::Multiply) => (Ok(Expr::Wildcard), pos + 1),
        Some(TokenKind::Identifier) => spec_class_field(t, pos),
        _ => (Err(syntax_error(pos)), pos),
    }
}

impl<'a> ExprParser<'a, Expr<'a>> for PrimaryExpr {
    open spec fn spec_parse_primary(t: TokenTable<'a>, pos: int) -> (Result<Expr<'a>, ParserError>, int) {
        spec_primary(t, pos)
    }

    proof fn lemma_primary_moves_forward(t: TokenTable<'a>, pos: int) {
    }

    fn parse_primary(token_table: &TokenTable<'a>, cursor: &mut usize) -> (r: Result<
        Expr<'a>,
        ParserError,
    >) {
        let e = match token_table.get_kind(*cursor) {
            Some(TokenKind::Number) => Expr::Number(token_table.source_at(*cursor)),
            Some(TokenKind::StringLiteral) => Expr::Text(token_table.source_at(*cursor)),
            Some(TokenKind::Keyword(Keyword::Null)) => Expr::Null,
            Some(TokenKind::Keyword(Keyword::True)) => Expr::Boolean(true),
            Some(TokenKind::Keyword(Keyword::False)) => Expr::Boolean(false),
            Some(TokenKind::Multiply) => Expr::Wildcard,
            Some(TokenKind::Identifier) => {
                return Expr::class_field(token_table, cursor);
            },
            _ => {
                return Err(ParserError::SyntaxError(*cursor, *cursor));
            },
        };
        *cursor += 1;
        Ok(e)
    }
}

impl<'a> ExprBuilder<Expr<'a>, BinaryOperator, UnaryOperator> for ExprBuild {
    open spec fn spec_build_infix(op: BinaryOperator, left: Expr<'a>, right: Expr<'a>) -> Expr<'a> {
        Expr::BinaryOp(Box::new(BinaryOp { op, left, right }))
    }

    open spec fn spec_build_prefix(op: UnaryOperator, operand: Expr<'a>) -> Expr<'a> {
        Expr::UnaryOp(Box::new(UnaryOp { op, operand }))
    }

    fn build_infix(op: BinaryOperator, left: Expr<'a>, right: Expr<'a>) -> (r: Expr<'a>) {
        Expr::BinaryOp(Box::new(BinaryOp { op, left, right }))
    }

    fn build_prefix(op: UnaryOperator, operand: Expr<'a>) -> (r: Expr<'a>) {
        Expr::UnaryOp(Box::new(UnaryOp { op, operand }))
    }
}

/// An expression at `pos`, as the Pratt parser reads it with the operators of
/// this module.
pub open spec fn spec_expr_at<'a>(t: TokenTable<'a>, pos: int) -> (Result<Expr<'a>, ParserError>, int) {
    spec_expr::<
        'a,
        Expr<'a>,
        BinaryOperator,
        UnaryOperator,
        PrimaryExpr,
        InfixOps,
        PrefixOps,
        ExprBuild,
    >(t, pos, 0)
}

impl<'a> Expr<'a> {
    /// Parses an expression at `cursor`.
    pub fn build(token_table: &TokenTable<'a>, cursor: &mut usize) -> (r: Result<Self, ParserError>)
        requires
            token_table.wf(),
        ensures
            (r, *final(cursor) as int) == spec_expr_at(*token_table, *old(cursor) as int),
            r is Ok ==> *old(cursor) < *final(cursor) <= token_table.tokens@.len(),
            r matches Err(e) ==> e == syntax_error(*final(cursor) as int),
    {
        let parser = PrattParser::<Expr<'a>, BinaryOperator, UnaryOperator>::new();
        parser.parse_expression::<PrimaryExpr, InfixOps, PrefixOps, ExprBuild>(token_table, cursor)
    }

    /// Parses a column reference (`name` or `prefix.name`) at `cursor`.
    pub fn class_field(token_table: &TokenTable<'a>, cursor: &mut usize) -> (r: Result<Self, ParserError>)
        requires
            token_table.wf(),
        ensures
            (r, *final(cursor) as int) == spec_class_field(*token_table, *old(cursor) as int),
            r is Ok ==> *old(cursor) < *final(cursor) <= token_table.tokens@.len(),
            r matches Err(e) ==> e == syntax_error(*final(cursor) as int),
    {
        match token_table.get_kind(*cursor) {
            Some(TokenKind::Identifier) => {},
            _ => {
                return Err(ParserError::SyntaxError(*cursor, *cursor));
            },
        }
        let first = token_table.source_at(*cursor);
        *cursor += 1;
        match token_table.get_kind(*cursor) {
            Some(TokenKind::Dot) => {},
            _ => {
                return Ok(Expr::Field(Field { prefix: None, name: first }));
            },
        }
        *cursor += 1;
        match token_table.get_kind(*cursor) {
            Some(TokenKind::Identifier) => {
                let name = token_table.source_at(*cursor);
                *cursor += 1;
                Ok(Expr::Field(Field { prefix: Some(first), name }))
            },
            _ => Err(ParserError::SyntaxError(*cursor, *cursor)),
        }
    }
}

/// A prefix-or-primary expression at `pos` (see [`spec_prefix_or_primary`]).
pub open spec fn spec_operand_at<'a>(t: TokenTable<'a>, pos: int) -> (Result<Expr<'a>, ParserError>, int) {
    spec_prefix_or_primary::<
        'a,
        Expr<'a>,
        BinaryOperator,
        UnaryOperator,
        PrimaryExpr,
        InfixOps,
        PrefixOps,
        ExprBuild,
    >(t, pos)
}

/// An expression at `pos` whose operators have precedence at least `min`.
pub open spec fn spec_expr_min<'a>(t: TokenTable<'a>, pos: int, min: int) -> (Result<Expr<'a>, ParserError>, int) {
    spec_expr::<
        'a,
        Expr<'a>,
        BinaryOperator,
        UnaryOperator,
        PrimaryExpr,
        InfixOps,
        PrefixOps,
        ExprBuild,
    >(t, pos, min)
}

/// The infix chain that extends `left` from `pos` on.
pub open spec fn spec_chain<'a>(t: TokenTable<'a>, left: Expr<'a>, pos: int, min: int) -> (Result<Expr<'a>, ParserError>, int) {
    spec_infix_chain::<
        'a,
        Expr<'a>,
        BinaryOperator,
        UnaryOperator,
        PrimaryExpr,
        InfixOps,
        PrefixOps,
        ExprBuild,
    >(t, left, pos, min)
}

/// A primary expression under zero or more prefix operators: no binary
/// operator stands outside a parenthesis-free operand.
pub open spec fn is_operand<'a>(e: Expr<'a>) -> bool
    decreases e,
{
    match e {
        Expr::BinaryOp(_) => false,
        Expr::UnaryOp(u) => is_operand(u.operand),
        _ => true,
    }
}

/// The root of `e`, if it is a binary operator, has precedence at least `min`.
pub open spec fn root_binds_at_least<'a>(e: Expr<'a>, min: int) -> bool {
    match e {
        Expr::BinaryOp(b) => b.op.spec_precedence() >= min,
        _ => true,
    }
}

/// Every binary operator of `e` has precedence at least `min`, and each
/// operator's left operand is built of operators that bind at least as
/// tightly, its right operand of operators that bind more tightly (for a
/// left-associative operator).
pub open spec fn precedence_ordered<'a>(e: Expr<'a>, min: int) -> bool
    decreases e,
{
    match e {
        Expr::BinaryOp(b) => {
            &&& b.op.spec_precedence() >= min
            &&& precedence_ordered(b.left, b.op.spec_precedence() as int)
            &&& precedence_ordered(b.right, next_min_precedence(b.op))
        },
        _ => is_operand(e),
    }
}

/// No infix operator of precedence at least `min` stands at `pos`.
pub open spec fn stops_before<'a>(t: TokenTable<'a>, pos: int, min: int) -> bool {
    InfixOps::spec_try_parse_op(t.tokens@, pos) matches Some(op) ==> op.spec_precedence() < min
}

proof fn lemma_operand<'a>(t: TokenTable<'a>, pos: int)
    ensures
        spec_operand_at(t, pos).0 matches Ok(e) ==> {
            &&& is_operand(e)
            &&& pos < spec_operand_at(t, pos).1 <= t.num_tokens()
        },
    decreases t.num_tokens() - pos,
{
    if PrefixOps::spec_try_parse_op(t.tokens@, pos) is Some && pos < t.num_tokens() {
        lemma_operand(t, pos + 1);
    }
}

proof fn lemma_ordered_weaken<'a>(e: Expr<'a>, min: int, m2: int)
    requires
        precedence_ordered(e, min),
        root_binds_at_least(e, m2),
    ensures
        precedence_ordered(e, m2),
{
}

proof fn lemma_expr_min<'a>(t: TokenTable<'a>, pos: int, min: int)
    ensures
        spec_expr_min(t, pos, min).0 matches Ok(e) ==> {
            let p = spec_expr_min(t, pos, min).1;
            &&& precedence_ordered(e, min)
            &&& pos < p <= t.num_tokens()
            &&& stops_before(t, p, min)
        },
    decreases t.num_tokens() - pos, 1int,
{
    lemma_operand(t, pos);
    let (r, p) = spec_operand_at(t, pos);
    if let Ok(left) = r {
        lemma_chain(t, left, p, min);
    }
}

proof fn lemma_chain<'a>(t: TokenTable<'a>, left: Expr<'a>, pos: int, min: int)
    requires
        precedence_ordered(left, min),
        match InfixOps::spec_try_parse_op(t.tokens@, pos) {
            Some(op) => op.spec_precedence() >= min ==> root_binds_at_least(left, op.spec_precedence() as int),
            None => true,
        },
        0 <= pos <= t.num_tokens(),
    ensures
        spec_chain(t, left, pos, min).0 matches Ok(e) ==> {
            let p = spec_chain(t, left, pos, min).1;
            &&& precedence_ordered(e, min)
            &&& pos <= p <= t.num_tokens()
            &&& stops_before(t, p, min)
        },
    decreases t.num_tokens() - pos, 0int,
{
    if let Some(op) = InfixOps::spec_try_parse_op(t.tokens@, pos) {
        if op.spec_precedence() >= min && pos < t.num_tokens() {
            let nm = next_min_precedence(op);
            lemma_expr_min(t, pos + 1, nm);
            let (r, p) = spec_expr_min(t, pos + 1, nm);
            if let Ok(right) = r {
                lemma_ordered_weaken(left, min, op.spec_precedence() as int);
                let built = Expr::BinaryOp(Box::new(BinaryOp { op, left, right }));
                assert(precedence_ordered(built, min));
                if let Some(op2) = InfixOps::spec_try_parse_op(t.tokens@, p) {
                    if op2.spec_precedence() >= min {
                        assert(op2.spec_precedence() < nm);
                    }
                }
                lemma_chain(t, built, p, min);
            }
        }
    }
}

/// Operator precedence and associativity: in every expression that
/// [`Expr::build`] returns, an operator that binds more tightly stands below
/// one that binds more loosely, and operators of equal precedence group to
/// the left (see [`precedence_ordered`]).
pub proof fn law_expressions_respect_precedence<'a>(t: TokenTable<'a>, pos: int)
    ensures
        spec_expr_at(t, pos).0 matches Ok(e) ==> precedence_ordered(e, 0),
{
    lemma_expr_min(t, pos, 0);
}

} // verus!
