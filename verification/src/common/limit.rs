//! `LIMIT count`, `LIMIT offset, count` and `LIMIT count OFFSET offset`.

use vstd::prelude::*;

use crate::common::expr::{spec_expr_at, Expr, InfixOps};
use crate::common::pratt::OpParser;
use crate::common::utils::expect_kind;
use crate::error::{syntax_error, ParserError};
use crate::keyword::Keyword;
use crate::token::{TokenKind, TokenTable};

verus! {

/// A `LIMIT` clause: the number of rows, and the number of rows skipped first.
#[derive(Debug, PartialEq)]
pub struct Limit<'a> {
    pub offset: Option<Expr<'a>>,
    pub limit: Expr<'a>,
}

/// A `LIMIT` clause at `pos`. The form is chosen by looking at the three
/// tokens after `LIMIT`: a number, then a comma or `OFFSET` (or neither), then
/// a number (or not). `n, m` reads offset `n` and count `m`; `n OFFSET m`
/// reads count `n` and offset `m`; a lone `n` (with no number two tokens on)
/// reads count `n`; anything else is refused at the token after `LIMIT`.
pub open spec fn spec_limit<'a>(t: TokenTable<'a>, pos: int) -> (Result<Limit<'a>, ParserError>, int) {
    if !t.is_kind(pos, TokenKind::Keyword(Keyword::Limit)) {
        (Err(syntax_error(pos)), pos)
    } else {
        let c = pos + 1;
        let first = t.is_kind(c, TokenKind::Number);
        let comma = t.is_kind(c + 1, TokenKind::Comma);
        let offset = t.is_kind(c + 1, TokenKind::Keyword(Keyword::Offset));
        let second = t.is_kind(c + 2, TokenKind::Number);
        if first && comma && !offset && second {
            let (r1, p1) = spec_expr_at(t, c);
            match r1 {
                Err(e) => (Err(e), p1),
                Ok(off) => {
                    let (r2, p2) = spec_expr_at(t, p1 + 1);
                    match r2 {
                        Err(e) => (Err(e), p2),
                        Ok(lim) => (Ok(Limit { offset: Some(off), limit: lim }), p2),
                    }
                },
            }
        } else if first && !comma && offset && second {
            let (r1, p1) = spec_expr_at(t, c);
            match r1 {
                Err(e) => (Err(e), p1),
                Ok(lim) => {
                    let (r2, p2) = spec_expr_at(t, p1 + 1);
                    match r2 {
                        Err(e) => (Err(e), p2),
                        Ok(off) => (Ok(Limit { offset: Some(off), limit: lim }), p2),
                    }
                },
            }
        } else if first && !comma && !offset && !second {
            let (r1, p1) = spec_expr_at(t, c);
            match r1 {
                Err(e) => (Err(e), p1),
                Ok(lim) => (Ok(Limit { offset: None, limit: lim }), p1),
            }
        } else {
            (Err(syntax_error(c)), c)
        }
    }
}

/// Whether the token `offset` places after `cursor` has kind `kind`.
fn kind_ahead(token_table: &TokenTable, cursor: usize, offset: usize, kind: &TokenKind) -> (r: bool)
    requires
        token_table.wf(),
    ensures
        r == token_table.is_kind(cursor + offset, *kind),
{
    if offset <= usize::MAX - cursor {
        match token_table.get_kind(cursor + offset) {
            Some(k) => *k == *kind,
            None => false,
        }
    } else {
        false
    }
}

impl<'a> Limit<'a> {
    /// Parses a `LIMIT` clause at `cursor` (see [`spec_limit`]).
    pub fn new(token_table: &TokenTable<'a>, cursor: &mut usize) -> (r: Result<Self, ParserError>)
        requires
            token_table.wf(),
        ensures
            (r, *final(cursor) as int) == spec_limit(*token_table, *old(cursor) as int),
            r is Ok ==> *old(cursor) < *final(cursor) <= token_table.tokens@.len(),
            r matches Err(e) ==> e == syntax_error(*final(cursor) as int),
    {
        expect_kind(token_table, cursor, &TokenKind::Keyword(Keyword::Limit))?;
        *cursor += 1;

        let first = kind_ahead(token_table, *cursor, 0, &TokenKind::Number);
        let comma = kind_ahead(token_table, *cursor, 1, &TokenKind::Comma);
        let offset = kind_ahead(token_table, *cursor, 1, &TokenKind::Keyword(Keyword::Offset));
        let second = kind_ahead(token_table, *cursor, 2, &TokenKind::Number);

        if first && comma && !offset && second {
            let offset = Expr::build(token_table, cursor)?;
            *cursor += 1;
            let limit = Expr::build(token_table, cursor)?;
            Ok(Limit { offset: Some(offset), limit })
        } else if first && !comma && offset && second {
            let limit = Expr::build(token_table, cursor)?;
            *cursor += 1;
            let offset = Expr::build(token_table, cursor)?;
            Ok(Limit { offset: Some(offset), limit })
        } else if first && !comma && !offset && !second {
            let limit = Expr::build(token_table, cursor)?;
            Ok(Limit { offset: None, limit })
        } else {
            Err(ParserError::SyntaxError(*cursor, *cursor))
        }
    }
}

/// A number that no infix operator follows is a whole expression.
proof fn lemma_lone_number<'a>(t: TokenTable<'a>, c: int)
    requires
        t.is_kind(c, TokenKind::Number),
        InfixOps::spec_try_parse_op(t.tokens@, c + 1) is None,
    ensures
        spec_expr_at(t, c) == (Ok::<Expr<'a>, ParserError>(Expr::Number(t.src(c))), c + 1),
{
}

/// `LIMIT n, m` and `LIMIT m OFFSET n` denote the same limit: `m` rows,
/// after skipping `n`; both end after the second number (when no operator
/// follows it).
pub proof fn law_limit_spellings_agree<'a>(t1: TokenTable<'a>, p1: int, t2: TokenTable<'a>, p2: int)
    requires
        t1.is_kind(p1, TokenKind::Keyword(Keyword::Limit)),
        t1.is_kind(p1 + 1, TokenKind::Number),
        t1.is_kind(p1 + 2, TokenKind::Comma),
        t1.is_kind(p1 + 3, TokenKind::Number),
        InfixOps::spec_try_parse_op(t1.tokens@, p1 + 4) is None,
        t2.is_kind(p2, TokenKind::Keyword(Keyword::Limit)),
        t2.is_kind(p2 + 1, TokenKind::Number),
        t2.is_kind(p2 + 2, TokenKind::Keyword(Keyword::Offset)),
        t2.is_kind(p2 + 3, TokenKind::Number),
        InfixOps::spec_try_parse_op(t2.tokens@, p2 + 4) is None,
        t1.src(p1 + 1) == t2.src(p2 + 3),
        t1.src(p1 + 3) == t2.src(p2 + 1),
    ensures
        spec_limit(t1, p1).0 == spec_limit(t2, p2).0,
        spec_limit(t1, p1).0 == Ok::<Limit<'a>, ParserError>(
            Limit { offset: Some(Expr::Number(t1.src(p1 + 1))), limit: Expr::Number(t1.src(p1 + 3)) },
        ),
        spec_limit(t1, p1).1 == p1 + 4,
        spec_limit(t2, p2).1 == p2 + 4,
{
    lemma_lone_number(t1, p1 + 1);
    lemma_lone_number(t1, p1 + 3);
    lemma_lone_number(t2, p2 + 1);
    lemma_lone_number(t2, p2 + 3);
}

} // verus!
