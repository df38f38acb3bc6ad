//! `UPDATE` statements.

use vstd::prelude::*;

use minivec::MiniVec;

use crate::ast::select::spec_opt_expr_clause;
use crate::common::expr::{spec_expr_at, Expr};
use crate::common::from::{spec_from, SpecFrom, From};
use crate::common::utils::{expect_kind, maybe_kind};
use crate::error::{syntax_error, view_result, ParserError};
use crate::keyword::Keyword;
use crate::lists::{expr_list_items, expr_list_push, expr_list_with_capacity};
use crate::token::{TokenKind, TokenTable};

verus! {

/// `UPDATE table SET assignments [WHERE condition]`; each assignment is an
/// expression such as `a = 1`.
#[derive(Debug, PartialEq)]
pub struct UpdateStatement<'a> {
    pub table: From<'a>,
    pub assignments: MiniVec<Expr<'a>>,
    pub where_statement: Option<Expr<'a>>,
}

/// The mathematical value of an [`UpdateStatement`].
pub struct SpecUpdateStatement<'a> {
    pub table: SpecFrom<'a>,
    pub assignments: Seq<Expr<'a>>,
    pub where_statement: Option<Expr<'a>>,
}

impl<'a> View for UpdateStatement<'a> {
    type V = SpecUpdateStatement<'a>;

    open spec fn view(&self) -> SpecUpdateStatement<'a> {
        SpecUpdateStatement {
            table: self.table@,
            assignments: expr_list_items(self.assignments),
            where_statement: self.where_statement,
        }
    }
}

/// The assignments from `pos` on, appended to `acc`: commas are skipped, a
/// keyword or the end of input ends the list, and every other token starts
/// an expression.
pub open spec fn spec_assignments<'a>(t: TokenTable<'a>, pos: int, acc: Seq<Expr<'a>>) -> (Result<Seq<Expr<'a>>, ParserError>, int)
    decreases t.num_tokens() - pos,
{
    if pos < 0 {
        (Ok(acc), pos)
    } else {
        match t.kind(pos) {
            Some(TokenKind::Comma) => spec_assignments(t, pos + 1, acc),
            Some(TokenKind::Keyword(_)) => (Ok(acc), pos),
            Some(_) => {
                let (r, p) = spec_expr_at(t, pos);
                match r {
                    Err(e) => (Err(e), p),
                    Ok(e) => if pos < p <= t.num_tokens() {
                        spec_assignments(t, p, acc.push(e))
                    } else {
                        (Ok(acc.push(e)), p)
                    },
                }
            },
            None => (Ok(acc), pos),
        }
    }
}

/// An `UPDATE` statement at `pos`.
pub open spec fn spec_update<'a>(t: TokenTable<'a>, pos: int) -> (Result<SpecUpdateStatement<'a>, ParserError>, int) {
    if !t.is_kind(pos, TokenKind::Keyword(Keyword::Update)) {
        (Err(syntax_error(pos)), pos)
    } else {
        let (rf, p) = spec_from(t, pos + 1);
        match rf {
            Err(e) => (Err(e), p),
            Ok(table) => if !t.is_kind(p, TokenKind::Keyword(Keyword::SetKw)) {
                (Err(syntax_error(p)), p)
            } else {
                let (ra, q) = spec_assignments(t, p + 1, Seq::empty());
                match ra {
                    Err(e) => (Err(e), q),
                    Ok(assignments) => {
                        let (rw, r) = spec_opt_expr_clause(t, q, Keyword::Where);
                        match rw {
                            Err(e) => (Err(e), r),
                            Ok(where_statement) => (
                                Ok(SpecUpdateStatement { table, assignments, where_statement }),
                                r,
                            ),
                        }
                    },
                }
            },
        }
    }
}

impl<'a> UpdateStatement<'a> {
    /// Parses an `UPDATE` statement at `cursor` (see [`spec_update`]).
    pub fn new(token_table: &TokenTable<'a>, cursor: &mut usize) -> (r: Result<Self, ParserError>)
        requires
            token_table.wf(),
        ensures
            (view_result(r), *final(cursor) as int) == spec_update(*token_table, *old(cursor) as int),
            r is Ok ==> *old(cursor) < *final(cursor) <= token_table.tokens@.len(),
            r matches Err(e) ==> e == syntax_error(*final(cursor) as int),
    {
        Self::build_ast(token_table, cursor)
    }

    fn build_ast(token_table: &TokenTable<'a>, cursor: &mut usize) -> (r: Result<Self, ParserError>)
        requires
            token_table.wf(),
        ensures
            (view_result(r), *final(cursor) as int) == spec_update(*token_table, *old(cursor) as int),
            r is Ok ==> *old(cursor) < *final(cursor) <= token_table.tokens@.len(),
            r matches Err(e) ==> e == syntax_error(*final(cursor) as int),
    {
        let ghost t = *token_table;
        expect_kind(token_table, cursor, &TokenKind::Keyword(Keyword::Update))?;
        *cursor += 1;

        let table = From::parse(token_table, cursor)?;

        expect_kind(token_table, cursor, &TokenKind::Keyword(Keyword::SetKw))?;
        *cursor += 1;

        let ghost start = *cursor as int;
        let mut assignments = expr_list_with_capacity(8);
        #[verifier::loop_isolation(false)]
        loop
            invariant
                start <= *cursor <= t.num_tokens(),
                spec_assignments(t, start, Seq::empty()) == spec_assignments(
                    t,
                    *cursor as int,
                    expr_list_items(assignments),
                ),
            decreases t.num_tokens() - *cursor,
        {
            match token_table.get_kind(*cursor) {
                Some(TokenKind::Comma) => {
                    *cursor += 1;
                },
                Some(TokenKind::Keyword(_)) => {
                    break;
                },
                Some(_) => {
                    let e = Expr::build(token_table, cursor)?;
                    expr_list_push(&mut assignments, e);
                },
                None => break,
            }
        }

        let where_statement = if maybe_kind(token_table, cursor, &TokenKind::Keyword(Keyword::Where)) {
            *cursor += 1;
            Some(Expr::build(token_table, cursor)?)
        } else {
            None
        };

        Ok(Self { table, assignments, where_statement })
    }
}

} // verus!
