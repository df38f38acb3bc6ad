//! `SELECT` statements, as they appear in queries, subqueries and
//! `CREATE TABLE ... AS SELECT`.

use vstd::prelude::*;

use crate::common::alias::{parse_alias_name, spec_alias_name, Alias};
use crate::common::expr::{spec_expr_at, Expr};
use crate::common::from::{from_view, spec_from, SpecFrom, From};
use crate::common::group::{spec_group, Group};
use crate::common::limit::{spec_limit, Limit};
use crate::common::utils::{expect_kind, maybe_kind};
use crate::error::{syntax_error, view_result, ParserError};
use crate::keyword::Keyword;
use crate::token::{TokenKind, TokenTable};

verus! {

/// `SELECT [DISTINCT] columns [FROM ...] [WHERE ...] [GROUP BY ...]
/// [HAVING ...] [LIMIT ...]`.
#[derive(Debug, PartialEq)]
pub struct SelectStatement<'a> {
    pub distinct: bool,
    pub columns: Vec<Alias<'a, Expr<'a>>>,
    pub from: Option<From<'a>>,
    pub conditions: Option<Expr<'a>>,
    pub group: Option<Group<'a>>,
    pub having: Option<Expr<'a>>,
    pub limit: Option<Limit<'a>>,
}

/// A `SELECT` statement in parentheses.
#[derive(Debug, PartialEq)]
pub struct SubSelectStatement<'a> {
    pub select: Box<SelectStatement<'a>>,
}

/// The mathematical value of a [`SelectStatement`].
pub struct SpecSelect<'a> {
    pub distinct: bool,
    pub columns: Seq<Alias<'a, Expr<'a>>>,
    pub from: Option<Box<SpecFrom<'a>>>,
    pub conditions: Option<Expr<'a>>,
    pub group: Option<Seq<Expr<'a>>>,
    pub having: Option<Expr<'a>>,
    pub limit: Option<Limit<'a>>,
}

pub open spec fn select_view<'a>(s: SelectStatement<'a>) -> SpecSelect<'a>
    decreases s,
{
    SpecSelect {
        distinct: s.distinct,
        columns: s.columns@,
        from: match s.from {
            Some(f) => Some(Box::new(from_view(f))),
            None => None,
        },
        conditions: s.conditions,
        group: match s.group {
            Some(g) => Some(g@),
            None => None,
        },
        having: s.having,
        limit: s.limit,
    }
}

impl<'a> View for SelectStatement<'a> {
    type V = SpecSelect<'a>;

    open spec fn view(&self) -> SpecSelect<'a> {
        select_view(*self)
    }
}

impl<'a> View for SubSelectStatement<'a> {
    type V = SpecSelect<'a>;

    open spec fn view(&self) -> SpecSelect<'a> {
        select_view(*self.select)
    }
}

/// The selected columns from `pos` on, appended to `acc`: an expression and
/// its optional alias, repeated while a comma follows.
pub open spec fn spec_select_columns<'a>(t: TokenTable<'a>, pos: int, acc: Seq<Alias<'a, Expr<'a>>>) -> (Result<Seq<Alias<'a, Expr<'a>>>, ParserError>, int)
    decreases t.num_tokens() - pos,
{
    let (re, p) = spec_expr_at(t, pos);
    match re {
        Err(e) => (Err(e), p),
        Ok(value) => {
            let (rn, q) = spec_alias_name(t, p);
            match rn {
                Err(e) => (Err(e), q),
                Ok(name) => {
                    let acc2 = acc.push(Alias { name, value });
                    if t.is_kind(q, TokenKind::Comma) && pos < q {
                        spec_select_columns(t, q + 1, acc2)
                    } else {
                        (Ok(acc2), q)
                    }
                },
            }
        },
    }
}

/// An optional clause made of the keyword `kw` and an expression.
pub open spec fn spec_opt_expr_clause<'a>(t: TokenTable<'a>, pos: int, kw: Keyword) -> (Result<Option<Expr<'a>>, ParserError>, int) {
    if t.is_kind(pos, TokenKind::Keyword(kw)) {
        let (r, p) = spec_expr_at(t, pos + 1);
        match r {
            Err(e) => (Err(e), p),
            Ok(e) => (Ok(Some(e)), p),
        }
    } else {
        (Ok(None), pos)
    }
}

/// An optional `FROM` clause.
pub open spec fn spec_opt_from<'a>(t: TokenTable<'a>, pos: int) -> (Result<Option<SpecFrom<'a>>, ParserError>, int)
    decreases t.num_tokens() - pos, 0int,
{
    if t.is_kind(pos, TokenKind::Keyword(Keyword::From)) {
        let (r, p) = spec_from(t, pos + 1);
        match r {
            Err(e) => (Err(e), p),
            Ok(f) => (Ok(Some(f)), p),
        }
    } else {
        (Ok(None), pos)
    }
}

/// The clauses after `FROM`: `WHERE`, `GROUP BY`, `HAVING`, `LIMIT`, each
/// optional, in this order.
pub open spec fn spec_select_tail<'a>(
    t: TokenTable<'a>,
    pos: int,
    distinct: bool,
    columns: Seq<Alias<'a, Expr<'a>>>,
    from: Option<Box<SpecFrom<'a>>>,
) -> (Result<SpecSelect<'a>, ParserError>, int) {
    let (rw, p1) = spec_opt_expr_clause(t, pos, Keyword::Where);
    match rw {
        Err(e) => (Err(e), p1),
        Ok(conditions) => {
            let (rg, p2) = if t.is_kind(p1, TokenKind::Keyword(Keyword::Group)) {
                let (r, p) = spec_group(t, p1);
                match r {
                    Err(e) => (Err(e), p),
                    Ok(g) => (Ok(Some(g)), p),
                }
            } else {
                (Ok(None), p1)
            };
            match rg {
                Err(e) => (Err(e), p2),
                Ok(group) => {
                    let (rh, p3) = spec_opt_expr_clause(t, p2, Keyword::Having);
                    match rh {
                        Err(e) => (Err(e), p3),
                        Ok(having) => {
                            let (rl, p4) = if t.is_kind(p3, TokenKind::Keyword(Keyword::Limit)) {
                                let (r, p) = spec_limit(t, p3);
                                match r {
                                    Err(e) => (Err(e), p),
                                    Ok(l) => (Ok(Some(l)), p),
                                }
                            } else {
                                (Ok(None), p3)
                            };
                            match rl {
                                Err(e) => (Err(e), p4),
                                Ok(limit) => (
                                    Ok(
                                        SpecSelect {
                                            distinct,
                                            columns,
                                            from,
                                            conditions,
                                            group,
                                            having,
                                            limit,
                                        },
                                    ),
                                    p4,
                                ),
                            }
                        },
                    }
                },
            }
        },
    }
}

/// A `SELECT` statement at `pos`.
pub open spec fn spec_select<'a>(t: TokenTable<'a>, pos: int) -> (Result<SpecSelect<'a>, ParserError>, int)
    decreases t.num_tokens() - pos, 3int,
{
    if !t.is_kind(pos, TokenKind::Keyword(Keyword::Select)) {
        (Err(syntax_error(pos)), pos)
    } else {
        let distinct = t.is_kind(pos + 1, TokenKind::Keyword(Keyword::Distinct));
        let p1 = if distinct { pos + 2 } else { pos + 1 };
        let (rc, p2) = spec_select_columns(t, p1, Seq::empty());
        match rc {
            Err(e) => (Err(e), p2),
            Ok(columns) => if pos < p2 <= t.num_tokens() {
                let (rf, p3) = spec_opt_from(t, p2);
                match rf {
                    Err(e) => (Err(e), p3),
                    Ok(from) => spec_select_tail(
                        t,
                        p3,
                        distinct,
                        columns,
                        match from {
                            Some(f) => Some(Box::new(f)),
                            None => None,
                        },
                    ),
                }
            } else {
                (Err(syntax_error(p2)), p2)
            },
        }
    }
}

/// A parenthesised `SELECT` statement at `pos`.
pub open spec fn spec_subselect<'a>(t: TokenTable<'a>, pos: int) -> (Result<SpecSelect<'a>, ParserError>, int)
    decreases t.num_tokens() - pos, 0int,
{
    if t.is_kind(pos, TokenKind::LeftParen) {
        let (r, p) = spec_select(t, pos + 1);
        match r {
            Err(e) => (Err(e), p),
            Ok(s) => if t.is_kind(p, TokenKind::RightParen) {
                (Ok(s), p + 1)
            } else {
                (Err(syntax_error(p)), p)
            },
        }
    } else {
        (Err(syntax_error(pos)), pos)
    }
}

impl<'a> SelectStatement<'a> {
    /// Parses a `SELECT` statement at `cursor` (see [`spec_select`]).
    pub fn new(token_table: &TokenTable<'a>, cursor: &mut usize) -> (r: Result<Self, ParserError>)
        requires
            token_table.wf(),
        ensures
            (view_result(r), *final(cursor) as int) == spec_select(*token_table, *old(cursor) as int),
            r is Ok ==> *old(cursor) < *final(cursor) <= token_table.tokens@.len(),
            r matches Err(e) ==> e == syntax_error(*final(cursor) as int),
        decreases token_table.tokens@.len() - *old(cursor), 3int,
    {
        expect_kind(token_table, cursor, &TokenKind::Keyword(Keyword::Select))?;
        *cursor += 1;
        let distinct = maybe_kind(token_table, cursor, &TokenKind::Keyword(Keyword::Distinct));
        if distinct {
            *cursor += 1;
        }
        let columns = Self::parse_columns(token_table, cursor)?;
        let from = Self::parse_opt_from(token_table, cursor)?;
        let conditions = Self::parse_opt_expr_clause(token_table, cursor, Keyword::Where)?;
        let group = if maybe_kind(token_table, cursor, &TokenKind::Keyword(Keyword::Group)) {
            Some(Group::build(token_table, cursor)?)
        } else {
            None
        };
        let having = Self::parse_opt_expr_clause(token_table, cursor, Keyword::Having)?;
        let limit = if maybe_kind(token_table, cursor, &TokenKind::Keyword(Keyword::Limit)) {
            Some(Limit::new(token_table, cursor)?)
        } else {
            None
        };
        Ok(SelectStatement { distinct, columns, from, conditions, group, having, limit })
    }

    /// Parses the selected columns (see [`spec_select_columns`]).
    fn parse_columns(token_table: &TokenTable<'a>, cursor: &mut usize) -> (r: Result<
        Vec<Alias<'a, Expr<'a>>>,
        ParserError,
    >)
        requires
            token_table.wf(),
        ensures
            ({
                let (sr, sp) = spec_select_columns(*token_table, *old(cursor) as int, Seq::empty());
                &&& *final(cursor) as int == sp
                &&& match r {
                    Ok(v) => sr == Ok::<Seq<Alias<'a, Expr<'a>>>, ParserError>(v@),
                    Err(e) => sr == Err::<Seq<Alias<'a, Expr<'a>>>, ParserError>(e),
                }
            }),
            r is Ok ==> *old(cursor) < *final(cursor) <= token_table.tokens@.len(),
            r matches Err(e) ==> e == syntax_error(*final(cursor) as int),
    {
        let ghost t = *token_table;
        let ghost pos0 = *cursor as int;
        let mut columns: Vec<Alias<'a, Expr<'a>>> = Vec::new();
        loop
            invariant_except_break
                token_table.wf(),
                t == *token_table,
                pos0 == *old(cursor) as int,
                pos0 <= *cursor <= t.num_tokens() || (columns@.len() == 0 && pos0 == *cursor),
                columns@.len() > 0 ==> pos0 < *cursor,
                spec_select_columns(t, pos0, Seq::empty()) == spec_select_columns(t, *cursor as int, columns@),
            ensures
                pos0 < *cursor <= t.num_tokens(),
                spec_select_columns(t, pos0, Seq::empty()) == (Ok::<Seq<Alias<'a, Expr<'a>>>, ParserError>(columns@), *cursor as int),
            decreases t.num_tokens() - *cursor,
        {
            let ghost start = *cursor as int;
            let value = Expr::build(token_table, cursor)?;
            let name = parse_alias_name(token_table, cursor)?;
            columns.push(Alias { name, value });
            if maybe_kind(token_table, cursor, &TokenKind::Comma) {
                *cursor += 1;
            } else {
                break;
            }
        }
        Ok(columns)
    }

    /// Parses an optional `FROM` clause (see [`spec_opt_from`]).
    fn parse_opt_from(token_table: &TokenTable<'a>, cursor: &mut usize) -> (r: Result<Option<From<'a>>, ParserError>)
        requires
            token_table.wf(),
        ensures
            ({
                let (sr, sp) = spec_opt_from(*token_table, *old(cursor) as int);
                &&& *final(cursor) as int == sp
                &&& match r {
                    Ok(Some(f)) => sr == Ok::<Option<SpecFrom<'a>>, ParserError>(Some(f@)),
                    Ok(None) => sr == Ok::<Option<SpecFrom<'a>>, ParserError>(None),
                    Err(e) => sr == Err::<Option<SpecFrom<'a>>, ParserError>(e),
                }
            }),
            r is Ok ==> *old(cursor) <= *final(cursor),
            r matches Err(e) ==> e == syntax_error(*final(cursor) as int),
            r is Ok && *old(cursor) <= token_table.tokens@.len() ==> *final(cursor) <= token_table.tokens@.len(),
        decreases token_table.tokens@.len() - *old(cursor), 0int,
    {
        if maybe_kind(token_table, cursor, &TokenKind::Keyword(Keyword::From)) {
            *cursor += 1;
            Ok(Some(From::parse(token_table, cursor)?))
        } else {
            Ok(None)
        }
    }

    /// Parses an optional clause of keyword `kw` and an expression (see
    /// [`spec_opt_expr_clause`]).
    fn parse_opt_expr_clause(token_table: &TokenTable<'a>, cursor: &mut usize, kw: Keyword) -> (r: Result<
        Option<Expr<'a>>,
        ParserError,
    >)
        requires
            token_table.wf(),
        ensures
            (r, *final(cursor) as int) == spec_opt_expr_clause(*token_table, *old(cursor) as int, kw),
            r is Ok ==> *old(cursor) <= *final(cursor),
            r matches Err(e) ==> e == syntax_error(*final(cursor) as int),
            r is Ok && *old(cursor) <= token_table.tokens@.len() ==> *final(cursor) <= token_table.tokens@.len(),
    {
        if maybe_kind(token_table, cursor, &TokenKind::Keyword(kw)) {
            *cursor += 1;
            Ok(Some(Expr::build(token_table, cursor)?))
        } else {
            Ok(None)
        }
    }
}

impl<'a> SubSelectStatement<'a> {
    /// Parses a parenthesised `SELECT` statement at `cursor` (see
    /// [`spec_subselect`]).
    pub fn build(token_table: &TokenTable<'a>, cursor: &mut usize) -> (r: Result<Self, ParserError>)
        requires
            token_table.wf(),
        ensures
            (view_result(r), *final(cursor) as int) == spec_subselect(*token_table, *old(cursor) as int),
            r is Ok ==> *old(cursor) < *final(cursor) <= token_table.tokens@.len(),
            r matches Err(e) ==> e == syntax_error(*final(cursor) as int),
        decreases token_table.tokens@.len() - *old(cursor), 0int,
    {
        expect_kind(token_table, cursor, &TokenKind::LeftParen)?;
        *cursor += 1;
        let select = SelectStatement::new(token_table, cursor)?;
        expect_kind(token_table, cursor, &TokenKind::RightParen)?;
        *cursor += 1;
        Ok(SubSelectStatement { select: Box::new(select) })
    }
}

} // verus!
