//! A generic Pratt parser for expressions with operator precedence.
//!
//! The parser is parameterised by four strategies: a parser for primary
//! (atomic) expressions, a recogniser for infix operators, a recogniser for
//! prefix operators, and a builder that combines operands. Each strategy
//! states its behaviour as a spec function, and the parser is proved to compute
//! exactly the precedence-climbing result described by [`spec_expr`].

use vstd::prelude::*;

use crate::error::{syntax_error, ParserError};
use crate::token::{TokenKind, TokenTable};

verus! {

/// An infix operator: a precedence (larger binds tighter) and an associativity.
pub trait InfixOp {
    spec fn spec_precedence(&self) -> u8;

    spec fn spec_is_left_associative(&self) -> bool;

    fn precedence(&self) -> (r: u8)
        ensures
            r == self.spec_precedence(),
    ;

    fn is_left_associative(&self) -> (r: bool)
        ensures
            r == self.spec_is_left_associative(),
    ;
}

/// A prefix operator.
pub trait PrefixOp {
    spec fn spec_precedence(&self) -> u8;

    fn precedence(&self) -> (r: u8)
        ensures
            r == self.spec_precedence(),
    ;
}

/// Recognises an operator at a token position without consuming it.
pub trait OpParser<Op> {
    /// The operator recognised at `pos` of `tokens`, if any.
    spec fn spec_try_parse_op(tokens: Seq<TokenKind>, pos: int) -> Option<Op>;

    /// An operator is recognised only at a token that exists.
    proof fn lemma_op_at_token(tokens: Seq<TokenKind>, pos: int)
        ensures
            Self::spec_try_parse_op(tokens, pos) is Some ==> 0 <= pos < tokens.len(),
    ;

    fn try_parse_op(token_table: &TokenTable, cursor: &usize) -> (r: Option<Op>)
        ensures
            r == Self::spec_try_parse_op(token_table.tokens@, *cursor as int),
            r is Some ==> *cursor < token_table.tokens@.len(),
    ;
}

/// Parses a primary (atomic) expression.
pub trait ExprParser<'a, Expr> {
    /// The result of parsing a primary expression at `pos`, with the position
    /// after it.
    spec fn spec_parse_primary(t: TokenTable<'a>, pos: int) -> (Result<Expr, ParserError>, int);

    /// A primary expression that is parsed starts at a token and takes at
    /// least one token, and no more than there are.
    proof fn lemma_primary_moves_forward(t: TokenTable<'a>, pos: int)
        ensures
            Self::spec_parse_primary(t, pos).0 is Ok ==> 0 <= pos < Self::spec_parse_primary(t, pos).1 <= t.num_tokens(),
    ;

    fn parse_primary(token_table: &TokenTable<'a>, cursor: &mut usize) -> (r: Result<
        Expr,
        ParserError,
    >)
        requires
            token_table.wf(),
        ensures
            (r, *final(cursor) as int) == Self::spec_parse_primary(
                *token_table,
                *old(cursor) as int,
            ),
            r is Ok ==> *old(cursor) < *final(cursor) <= token_table.tokens@.len(),
            r matches Err(e) ==> e == syntax_error(*final(cursor) as int),
    ;
}

/// Combines operators and operands into expressions.
pub trait ExprBuilder<Expr, Infix, Prefix> {
    spec fn spec_build_infix(op: Infix, left: Expr, right: Expr) -> Expr;

    spec fn spec_build_prefix(op: Prefix, operand: Expr) -> Expr;

    fn build_infix(op: Infix, left: Expr, right: Expr) -> (r: Expr)
        ensures
            r == Self::spec_build_infix(op, left, right),
    ;

    fn build_prefix(op: Prefix, operand: Expr) -> (r: Expr)
        ensures
            r == Self::spec_build_prefix(op, operand),
    ;
}

/// An expression parsed at `pos` whose infix operators all have precedence at
/// least `min`: a prefix-or-primary expression followed by the infix chain.
pub open spec fn spec_expr<
    'a,
    Expr,
    Infix: InfixOp,
    Prefix: PrefixOp,
    Primary: ExprParser<'a, Expr>,
    InfixP: OpParser<Infix>,
    PrefixP: OpParser<Prefix>,
    Build: ExprBuilder<Expr, Infix, Prefix>,
>(t: TokenTable<'a>, pos: int, min: int) -> (Result<Expr, ParserError>, int)
    decreases t.num_tokens() - pos, 1int,
{
    let (r, p) = spec_prefix_or_primary::<'a, Expr, Infix, Prefix, Primary, InfixP, PrefixP, Build>(
        t,
        pos,
    );
    match r {
        Err(e) => (Err(e), p),
        Ok(left) => if pos < p <= t.num_tokens() {
            spec_infix_chain::<'a, Expr, Infix, Prefix, Primary, InfixP, PrefixP, Build>(
                t,
                left,
                p,
                min,
            )
        } else {
            (Ok(left), p)
        },
    }
}

/// A run of prefix operators applied to a primary expression.
pub open spec fn spec_prefix_or_primary<
    'a,
    Expr,
    Infix: InfixOp,
    Prefix: PrefixOp,
    Primary: ExprParser<'a, Expr>,
    InfixP: OpParser<Infix>,
    PrefixP: OpParser<Prefix>,
    Build: ExprBuilder<Expr, Infix, Prefix>,
>(t: TokenTable<'a>, pos: int) -> (Result<Expr, ParserError>, int)
    decreases t.num_tokens() - pos, 0int,
{
    match PrefixP::spec_try_parse_op(t.tokens@, pos) {
        Some(op) => if pos < t.num_tokens() {
            let (r, p) = spec_prefix_or_primary::<
                'a,
                Expr,
                Infix,
                Prefix,
                Primary,
                InfixP,
                PrefixP,
                Build,
            >(t, pos + 1);
            match r {
                Err(e) => (Err(e), p),
                Ok(operand) => (Ok(Build::spec_build_prefix(op, operand)), p),
            }
        } else {
            (Err(syntax_error(pos)), pos)
        },
        None => Primary::spec_parse_primary(t, pos),
    }
}

/// The precedence bound for the right operand of `op`.
pub open spec fn next_min_precedence<Infix: InfixOp>(op: Infix) -> int {
    if op.spec_is_left_associative() {
        op.spec_precedence() + 1
    } else {
        op.spec_precedence() as int
    }
}

/// Extends `left` with the infix operators (of precedence at least `min`)
/// found from `pos` on.
pub open spec fn spec_infix_chain<
    'a,
    Expr,
    Infix: InfixOp,
    Prefix: PrefixOp,
    Primary: ExprParser<'a, Expr>,
    InfixP: OpParser<Infix>,
    PrefixP: OpParser<Prefix>,
    Build: ExprBuilder<Expr, Infix, Prefix>,
>(t: TokenTable<'a>, left: Expr, pos: int, min: int) -> (Result<Expr, ParserError>, int)
    decreases t.num_tokens() - pos, 1int,
{
    match InfixP::spec_try_parse_op(t.tokens@, pos) {
        None => (Ok(left), pos),
        Some(op) => if op.spec_precedence() < min {
            (Ok(left), pos)
        } else if pos < t.num_tokens() {
            let (r, p) = spec_expr::<'a, Expr, Infix, Prefix, Primary, InfixP, PrefixP, Build>(
                t,
                pos + 1,
                next_min_precedence(op),
            );
            match r {
                Err(e) => (Err(e), p),
                Ok(right) => if pos + 1 < p <= t.num_tokens() {
                    spec_infix_chain::<'a, Expr, Infix, Prefix, Primary, InfixP, PrefixP, Build>(
                        t,
                        Build::spec_build_infix(op, left, right),
                        p,
                        min,
                    )
                } else {
                    (Ok(left), p)
                },
            }
        } else {
            (Ok(left), pos)
        },
    }
}

/// No infix operator of precedence at least `min` is recognised at `pos`.
pub open spec fn no_infix_from<Infix: InfixOp, InfixP: OpParser<Infix>>(tokens: Seq<TokenKind>, pos: int, min: int) -> bool {
    InfixP::spec_try_parse_op(tokens, pos) matches Some(op) ==> op.spec_precedence() < min
}

proof fn lemma_prefix_or_primary_moves<
    'a,
    Expr,
    Infix: InfixOp,
    Prefix: PrefixOp,
    Primary: ExprParser<'a, Expr>,
    InfixP: OpParser<Infix>,
    PrefixP: OpParser<Prefix>,
    Build: ExprBuilder<Expr, Infix, Prefix>,
>(t: TokenTable<'a>, pos: int)
    ensures
        ({
            let (r, p) = spec_prefix_or_primary::<'a, Expr, Infix, Prefix, Primary, InfixP, PrefixP, Build>(t, pos);
            r is Ok ==> 0 <= pos < p <= t.num_tokens()
        }),
    decreases t.num_tokens() - pos,
{
    PrefixP::lemma_op_at_token(t.tokens@, pos);
    if PrefixP::spec_try_parse_op(t.tokens@, pos) is Some {
        if pos < t.num_tokens() {
            lemma_prefix_or_primary_moves::<'a, Expr, Infix, Prefix, Primary, InfixP, PrefixP, Build>(t, pos + 1);
        }
    } else {
        Primary::lemma_primary_moves_forward(t, pos);
    }
}

proof fn lemma_expr_stops<
    'a,
    Expr,
    Infix: InfixOp,
    Prefix: PrefixOp,
    Primary: ExprParser<'a, Expr>,
    InfixP: OpParser<Infix>,
    PrefixP: OpParser<Prefix>,
    Build: ExprBuilder<Expr, Infix, Prefix>,
>(t: TokenTable<'a>, pos: int, min: int)
    ensures
        ({
            let (r, p) = spec_expr::<'a, Expr, Infix, Prefix, Primary, InfixP, PrefixP, Build>(t, pos, min);
            r is Ok ==> pos < p <= t.num_tokens() && no_infix_from::<Infix, InfixP>(t.tokens@, p, min)
        }),
    decreases t.num_tokens() - pos, 1int,
{
    lemma_prefix_or_primary_moves::<'a, Expr, Infix, Prefix, Primary, InfixP, PrefixP, Build>(t, pos);
    let (r, p) = spec_prefix_or_primary::<'a, Expr, Infix, Prefix, Primary, InfixP, PrefixP, Build>(t, pos);
    if let Ok(left) = r {
        lemma_chain_stops::<'a, Expr, Infix, Prefix, Primary, InfixP, PrefixP, Build>(t, left, p, min);
    }
}

proof fn lemma_chain_stops<
    'a,
    Expr,
    Infix: InfixOp,
    Prefix: PrefixOp,
    Primary: ExprParser<'a, Expr>,
    InfixP: OpParser<Infix>,
    PrefixP: OpParser<Prefix>,
    Build: ExprBuilder<Expr, Infix, Prefix>,
>(t: TokenTable<'a>, left: Expr, pos: int, min: int)
    requires
        0 <= pos <= t.num_tokens(),
    ensures
        ({
            let (r, p) = spec_infix_chain::<'a, Expr, Infix, Prefix, Primary, InfixP, PrefixP, Build>(t, left, pos, min);
            r is Ok ==> pos <= p <= t.num_tokens() && no_infix_from::<Infix, InfixP>(t.tokens@, p, min)
        }),
    decreases t.num_tokens() - pos, 0int,
{
    InfixP::lemma_op_at_token(t.tokens@, pos);
    if let Some(op) = InfixP::spec_try_parse_op(t.tokens@, pos) {
        if op.spec_precedence() >= min && pos < t.num_tokens() {
            let nm = next_min_precedence(op);
            lemma_expr_stops::<'a, Expr, Infix, Prefix, Primary, InfixP, PrefixP, Build>(t, pos + 1, nm);
            let (r, p) = spec_expr::<'a, Expr, Infix, Prefix, Primary, InfixP, PrefixP, Build>(t, pos + 1, nm);
            if let Ok(right) = r {
                lemma_chain_stops::<'a, Expr, Infix, Prefix, Primary, InfixP, PrefixP, Build>(
                    t,
                    Build::spec_build_infix(op, left, right),
                    p,
                    min,
                );
            }
        }
    }
}

/// With no lower bound on precedence, parsing stops only where no infix
/// operator follows: when [`PrattParser::parse_expression`] succeeds, no
/// infix operator is recognised at the position where it stopped.
pub proof fn law_expression_ends_before_no_infix<
    'a,
    Expr,
    Infix: InfixOp,
    Prefix: PrefixOp,
    Primary: ExprParser<'a, Expr>,
    InfixP: OpParser<Infix>,
    PrefixP: OpParser<Prefix>,
    Build: ExprBuilder<Expr, Infix, Prefix>,
>(t: TokenTable<'a>, pos: int)
    ensures
        ({
            let (r, p) = spec_expr::<'a, Expr, Infix, Prefix, Primary, InfixP, PrefixP, Build>(t, pos, 0);
            r is Ok ==> InfixP::spec_try_parse_op(t.tokens@, p) is None
        }),
{
    lemma_expr_stops::<'a, Expr, Infix, Prefix, Primary, InfixP, PrefixP, Build>(t, pos, 0);
}

/// Associativity: in a chain `a op b op c` of one infix operator and three
/// primary operands, with no prefix operator and nothing infix after `c`,
/// a left-associative operator groups to the left,
/// `build(op, build(op, a, b), c)`, and any other groups to the right,
/// `build(op, a, build(op, b, c))`; the parse ends after `c`.
pub proof fn law_associativity<
    'a,
    Expr,
    Infix: InfixOp,
    Prefix: PrefixOp,
    Primary: ExprParser<'a, Expr>,
    InfixP: OpParser<Infix>,
    PrefixP: OpParser<Prefix>,
    Build: ExprBuilder<Expr, Infix, Prefix>,
>(t: TokenTable<'a>, pos: int, op: Infix, a: Expr, b: Expr, c: Expr, p1: int, p2: int, p3: int)
    requires
        PrefixP::spec_try_parse_op(t.tokens@, pos) is None,
        Primary::spec_parse_primary(t, pos) == (Ok::<Expr, ParserError>(a), p1),
        InfixP::spec_try_parse_op(t.tokens@, p1) == Some(op),
        PrefixP::spec_try_parse_op(t.tokens@, p1 + 1) is None,
        Primary::spec_parse_primary(t, p1 + 1) == (Ok::<Expr, ParserError>(b), p2),
        InfixP::spec_try_parse_op(t.tokens@, p2) == Some(op),
        PrefixP::spec_try_parse_op(t.tokens@, p2 + 1) is None,
        Primary::spec_parse_primary(t, p2 + 1) == (Ok::<Expr, ParserError>(c), p3),
        InfixP::spec_try_parse_op(t.tokens@, p3) is None,
    ensures
        spec_expr::<'a, Expr, Infix, Prefix, Primary, InfixP, PrefixP, Build>(t, pos, 0) == (
            Ok::<Expr, ParserError>(
                if op.spec_is_left_associative() {
                    Build::spec_build_infix(op, Build::spec_build_infix(op, a, b), c)
                } else {
                    Build::spec_build_infix(op, a, Build::spec_build_infix(op, b, c))
                },
            ),
            p3,
        ),
{
    Primary::lemma_primary_moves_forward(t, pos);
    Primary::lemma_primary_moves_forward(t, p1 + 1);
    Primary::lemma_primary_moves_forward(t, p2 + 1);
    InfixP::lemma_op_at_token(t.tokens@, p1);
    InfixP::lemma_op_at_token(t.tokens@, p2);
    let nm = next_min_precedence(op);
    let ab = Build::spec_build_infix(op, a, b);
    let bc = Build::spec_build_infix(op, b, c);
    assert(spec_prefix_or_primary::<'a, Expr, Infix, Prefix, Primary, InfixP, PrefixP, Build>(t, pos) == (Ok::<Expr, ParserError>(a), p1));
    assert(spec_prefix_or_primary::<'a, Expr, Infix, Prefix, Primary, InfixP, PrefixP, Build>(t, p1 + 1) == (Ok::<Expr, ParserError>(b), p2));
    assert(spec_prefix_or_primary::<'a, Expr, Infix, Prefix, Primary, InfixP, PrefixP, Build>(t, p2 + 1) == (Ok::<Expr, ParserError>(c), p3));
    if op.spec_is_left_associative() {
        assert(spec_infix_chain::<'a, Expr, Infix, Prefix, Primary, InfixP, PrefixP, Build>(t, c, p3, nm) == (Ok::<Expr, ParserError>(c), p3));
        assert(spec_expr::<'a, Expr, Infix, Prefix, Primary, InfixP, PrefixP, Build>(t, p2 + 1, nm) == (Ok::<Expr, ParserError>(c), p3));
        assert(spec_infix_chain::<'a, Expr, Infix, Prefix, Primary, InfixP, PrefixP, Build>(t, Build::spec_build_infix(op, ab, c), p3, 0) == (Ok::<Expr, ParserError>(Build::spec_build_infix(op, ab, c)), p3));
        assert(spec_infix_chain::<'a, Expr, Infix, Prefix, Primary, InfixP, PrefixP, Build>(t, ab, p2, 0) == (Ok::<Expr, ParserError>(Build::spec_build_infix(op, ab, c)), p3));
        assert(spec_infix_chain::<'a, Expr, Infix, Prefix, Primary, InfixP, PrefixP, Build>(t, b, p2, nm) == (Ok::<Expr, ParserError>(b), p2));
        assert(spec_expr::<'a, Expr, Infix, Prefix, Primary, InfixP, PrefixP, Build>(t, p1 + 1, nm) == (Ok::<Expr, ParserError>(b), p2));
        assert(spec_infix_chain::<'a, Expr, Infix, Prefix, Primary, InfixP, PrefixP, Build>(t, a, p1, 0) == (Ok::<Expr, ParserError>(Build::spec_build_infix(op, ab, c)), p3));
    } else {
        assert(spec_infix_chain::<'a, Expr, Infix, Prefix, Primary, InfixP, PrefixP, Build>(t, c, p3, nm) == (Ok::<Expr, ParserError>(c), p3));
        assert(spec_expr::<'a, Expr, Infix, Prefix, Primary, InfixP, PrefixP, Build>(t, p2 + 1, nm) == (Ok::<Expr, ParserError>(c), p3));
        assert(spec_infix_chain::<'a, Expr, Infix, Prefix, Primary, InfixP, PrefixP, Build>(t, bc, p3, nm) == (Ok::<Expr, ParserError>(bc), p3));
        assert(spec_infix_chain::<'a, Expr, Infix, Prefix, Primary, InfixP, PrefixP, Build>(t, b, p2, nm) == (Ok::<Expr, ParserError>(bc), p3));
        assert(spec_expr::<'a, Expr, Infix, Prefix, Primary, InfixP, PrefixP, Build>(t, p1 + 1, nm) == (Ok::<Expr, ParserError>(bc), p3));
        let abc = Build::spec_build_infix(op, a, bc);
        assert(spec_infix_chain::<'a, Expr, Infix, Prefix, Primary, InfixP, PrefixP, Build>(t, abc, p3, 0) == (Ok::<Expr, ParserError>(abc), p3));
        assert(spec_infix_chain::<'a, Expr, Infix, Prefix, Primary, InfixP, PrefixP, Build>(t, a, p1, 0) == (Ok::<Expr, ParserError>(abc), p3));
    }
}

/// No left-associative operator has the largest precedence, so the bound for
/// its right operand fits in a `u8`.
pub open spec fn precedences_fit<Infix: InfixOp>() -> bool {
    forall|op: Infix| #[trigger] op.spec_is_left_associative() ==> op.spec_precedence() < 255
}

/// A Pratt parser over expressions `Expr` with infix operators `Infix` and
/// prefix operators `Prefix`.
pub struct PrattParser<Expr, Infix, Prefix> {
    _phantom: std::marker::PhantomData<(Expr, Infix, Prefix)>,
}

impl<Expr, Infix, Prefix> PrattParser<Expr, Infix, Prefix> {
    /// The parser, which holds no state.
    pub closed spec fn stateless() -> Self {
        PrattParser { _phantom: std::marker::PhantomData }
    }

    /// A new parser; it holds no state.
    pub fn new() -> (r: Self)
        ensures
            r == Self::stateless(),
    {
        Self { _phantom: std::marker::PhantomData }
    }
}

impl<Expr, Infix, Prefix> Default for PrattParser<Expr, Infix, Prefix> {
    fn default() -> (r: Self)
        ensures
            r == Self::stateless(),
    {
        Self::new()
    }
}

impl<Expr, Infix: InfixOp, Prefix: PrefixOp> PrattParser<Expr, Infix, Prefix> {
    /// Parses an expression at `cursor`, with no lower bound on precedence.
    pub fn parse_expression<
        'a,
        Primary: ExprParser<'a, Expr>,
        InfixP: OpParser<Infix>,
        PrefixP: OpParser<Prefix>,
        Build: ExprBuilder<Expr, Infix, Prefix>,
    >(&self, token_table: &TokenTable<'a>, cursor: &mut usize) -> (r: Result<Expr, ParserError>)
        requires
            token_table.wf(),
            precedences_fit::<Infix>(),
        ensures
            (r, *final(cursor) as int) == spec_expr::<
                'a,
                Expr,
                Infix,
                Prefix,
                Primary,
                InfixP,
                PrefixP,
                Build,
            >(*token_table, *old(cursor) as int, 0),
            r is Ok ==> *old(cursor) < *final(cursor) <= token_table.tokens@.len(),
            r matches Err(e) ==> e == syntax_error(*final(cursor) as int),
    {
        self.parse_expression_with_min_precedence::<Primary, InfixP, PrefixP, Build>(
            token_table,
            cursor,
            0,
        )
    }

    fn parse_expression_with_min_precedence<
        'a,
        Primary: ExprParser<'a, Expr>,
        InfixP: OpParser<Infix>,
        PrefixP: OpParser<Prefix>,
        Build: ExprBuilder<Expr, Infix, Prefix>,
    >(&self, token_table: &TokenTable<'a>, cursor: &mut usize, min_precedence: u8) -> (r: Result<
        Expr,
        ParserError,
    >)
        requires
            token_table.wf(),
            precedences_fit::<Infix>(),
        ensures
            (r, *final(cursor) as int) == spec_expr::<
                'a,
                Expr,
                Infix,
                Prefix,
                Primary,
                InfixP,
                PrefixP,
                Build,
            >(*token_table, *old(cursor) as int, min_precedence as int),
            r is Ok ==> *old(cursor) < *final(cursor) <= token_table.tokens@.len(),
            r matches Err(e) ==> e == syntax_error(*final(cursor) as int),
        decreases token_table.tokens@.len() - *old(cursor), 1int,
    {
        let ghost t = *token_table;
        let ghost pos0 = *cursor as int;
        let mut left = self.parse_prefix_or_primary::<Primary, InfixP, PrefixP, Build>(
            token_table,
            cursor,
        )?;
        loop
            invariant_except_break
                token_table.wf(),
                precedences_fit::<Infix>(),
                t == *token_table,
                pos0 == *old(cursor) as int,
                pos0 < *cursor <= t.num_tokens(),
                spec_expr::<'a, Expr, Infix, Prefix, Primary, InfixP, PrefixP, Build>(
                    t,
                    pos0,
                    min_precedence as int,
                ) == spec_infix_chain::<'a, Expr, Infix, Prefix, Primary, InfixP, PrefixP, Build>(
                    t,
                    left,
                    *cursor as int,
                    min_precedence as int,
                ),
            ensures
                pos0 < *cursor <= t.num_tokens(),
                spec_expr::<'a, Expr, Infix, Prefix, Primary, InfixP, PrefixP, Build>(
                    t,
                    pos0,
                    min_precedence as int,
                ) == (Ok::<Expr, ParserError>(left), *cursor as int),
            decreases t.num_tokens() - *cursor,
        {
            let op = match InfixP::try_parse_op(token_table, cursor) {
                Some(op) => op,
                None => break,
            };
            let prec = op.precedence();
            if prec < min_precedence {
                break;
            }
            let ghost before = *cursor as int;
            *cursor += 1;
            let next_min_precedence = if op.is_left_associative() {
                prec + 1
            } else {
                prec
            };
            let right = self.parse_expression_with_min_precedence::<
                Primary,
                InfixP,
                PrefixP,
                Build,
            >(token_table, cursor, next_min_precedence)?;
            left = Build::build_infix(op, left, right);
        }
        Ok(left)
    }

    fn parse_prefix_or_primary<
        'a,
        Primary: ExprParser<'a, Expr>,
        InfixP: OpParser<Infix>,
        PrefixP: OpParser<Prefix>,
        Build: ExprBuilder<Expr, Infix, Prefix>,
    >(&self, token_table: &TokenTable<'a>, cursor: &mut usize) -> (r: Result<Expr, ParserError>)
        requires
            token_table.wf(),
        ensures
            (r, *final(cursor) as int) == spec_prefix_or_primary::<
                'a,
                Expr,
                Infix,
                Prefix,
                Primary,
                InfixP,
                PrefixP,
                Build,
            >(*token_table, *old(cursor) as int),
            r is Ok ==> *old(cursor) < *final(cursor) <= token_table.tokens@.len(),
            r matches Err(e) ==> e == syntax_error(*final(cursor) as int),
        decreases token_table.tokens@.len() - *old(cursor), 0int,
    {
        if let Some(op) = PrefixP::try_parse_op(token_table, cursor) {
            *cursor += 1;
            let operand = self.parse_prefix_or_primary::<Primary, InfixP, PrefixP, Build>(
                token_table,
                cursor,
            )?;
            return Ok(Build::build_prefix(op, operand));
        }
        Primary::parse_primary(token_table, cursor)
    }
}

} // verus!
