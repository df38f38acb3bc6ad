//! `INSERT` statements.

use vstd::prelude::*;

use crate::common::expr::{spec_expr_at, Expr};
use crate::common::utils::{expect_kind, maybe_kind};
use crate::error::{syntax_error, ParserError};
use crate::keyword::Keyword;
use crate::token::{TokenKind, TokenTable};

verus! {

/// `INSERT INTO table [(columns)] VALUES (row), (row), ...`.
#[derive(Debug, PartialEq)]
pub struct InsertStatement<'a> {
    pub table: &'a str,
    pub columns: Option<Vec<&'a str>>,
    pub values: Vec<Vec<Expr<'a>>>,
}

/// The mathematical value of an [`InsertStatement`].
pub struct SpecInsertStatement<'a> {
    pub table: &'a str,
    pub columns: Option<Seq<&'a str>>,
    pub values: Seq<Seq<Expr<'a>>>,
}

/// The rows of a list, each taken as a sequence.
pub open spec fn rows_view<'a>(v: Seq<Vec<Expr<'a>>>) -> Seq<Seq<Expr<'a>>> {
    v.map_values(|r: Vec<Expr<'a>>| r@)
}

impl<'a> View for InsertStatement<'a> {
    type V = SpecInsertStatement<'a>;

    open spec fn view(&self) -> SpecInsertStatement<'a> {
        SpecInsertStatement {
            table: self.table,
            columns: match self.columns {
                Some(c) => Some(c@),
                None => None,
            },
            values: rows_view(self.values@),
        }
    }
}

/// The identifiers of a column list from `pos` on, appended to `acc`: an
/// identifier, then `,` and another, until `)`.
pub open spec fn spec_insert_columns<'a>(t: TokenTable<'a>, pos: int, acc: Seq<&'a str>) -> (Result<Seq<&'a str>, ParserError>, int)
    decreases t.num_tokens() - pos,
{
    if !t.is_kind(pos, TokenKind::Identifier) {
        (Err(syntax_error(pos)), pos)
    } else if t.is_kind(pos + 1, TokenKind::Comma) {
        spec_insert_columns(t, pos + 2, acc.push(t.src(pos)))
    } else if t.is_kind(pos + 1, TokenKind::RightParen) {
        (Ok(acc.push(t.src(pos))), pos + 2)
    } else {
        (Err(syntax_error(pos + 1)), pos + 1)
    }
}

/// The expressions of a row from `pos` on, appended to `acc`: an
/// expression, then `,` and another, until `)`.
pub open spec fn spec_row_items<'a>(t: TokenTable<'a>, pos: int, acc: Seq<Expr<'a>>) -> (Result<Seq<Expr<'a>>, ParserError>, int)
    decreases t.num_tokens() - pos,
{
    let (r, p) = spec_expr_at(t, pos);
    match r {
        Err(e) => (Err(e), p),
        Ok(e) => if t.is_kind(p, TokenKind::Comma) && pos < p {
            spec_row_items(t, p + 1, acc.push(e))
        } else if t.is_kind(p, TokenKind::RightParen) {
            (Ok(acc.push(e)), p + 1)
        } else {
            (Err(syntax_error(p)), p)
        },
    }
}

/// A parenthesised row at `pos`.
pub open spec fn spec_row<'a>(t: TokenTable<'a>, pos: int) -> (Result<Seq<Expr<'a>>, ParserError>, int) {
    if t.is_kind(pos, TokenKind::LeftParen) {
        spec_row_items(t, pos + 1, Seq::empty())
    } else {
        (Err(syntax_error(pos)), pos)
    }
}

/// The rows from `pos` on, appended to `acc`, separated by commas.
pub open spec fn spec_rows<'a>(t: TokenTable<'a>, pos: int, acc: Seq<Seq<Expr<'a>>>) -> (Result<Seq<Seq<Expr<'a>>>, ParserError>, int)
    decreases t.num_tokens() - pos,
{
    let (r, p) = spec_row(t, pos);
    match r {
        Err(e) => (Err(e), p),
        Ok(row) => if t.is_kind(p, TokenKind::Comma) && pos < p {
            spec_rows(t, p + 1, acc.push(row))
        } else {
            (Ok(acc.push(row)), p)
        },
    }
}

/// An `INSERT` statement at `pos`.
pub open spec fn spec_insert<'a>(t: TokenTable<'a>, pos: int) -> (Result<SpecInsertStatement<'a>, ParserError>, int) {
    if !t.is_kind(pos, TokenKind::Keyword(Keyword::Insert)) {
        (Err(syntax_error(pos)), pos)
    } else if !t.is_kind(pos + 1, TokenKind::Keyword(Keyword::Into)) {
        (Err(syntax_error(pos + 1)), pos + 1)
    } else if !t.is_kind(pos + 2, TokenKind::Identifier) {
        (Err(syntax_error(pos + 2)), pos + 2)
    } else {
        let table = t.src(pos + 2);
        let (rc, p) = if t.is_kind(pos + 3, TokenKind::LeftParen) {
            let (r, q) = spec_insert_columns(t, pos + 4, Seq::empty());
            match r {
                Err(e) => (Err(e), q),
                Ok(c) => (Ok(Some(c)), q),
            }
        } else {
            (Ok(None), pos + 3)
        };
        match rc {
            Err(e) => (Err(e), p),
            Ok(columns) => if !t.is_kind(p, TokenKind::Keyword(Keyword::Values)) {
                (Err(syntax_error(p)), p)
            } else {
                let (rv, q) = spec_rows(t, p + 1, Seq::empty());
                match rv {
                    Err(e) => (Err(e), q),
                    Ok(values) => (Ok(SpecInsertStatement { table, columns, values }), q),
                }
            },
        }
    }
}

impl<'a> InsertStatement<'a> {
    /// Parses an `INSERT` statement at `cursor` (see [`spec_insert`]).
    pub fn new(token_table: &TokenTable<'a>, cursor: &mut usize) -> (r: Result<Self, ParserError>)
        requires
            token_table.wf(),
        ensures
            ({
                let (sr, sp) = spec_insert(*token_table, *old(cursor) as int);
                &&& *final(cursor) as int == sp
                &&& match r {
                    Ok(s) => sr == Ok::<SpecInsertStatement<'a>, ParserError>(s@),
                    Err(e) => sr == Err::<SpecInsertStatement<'a>, ParserError>(e),
                }
            }),
            r is Ok ==> *old(cursor) < *final(cursor) <= token_table.tokens@.len(),
            r matches Err(e) ==> e == syntax_error(*final(cursor) as int),
    {
        expect_kind(token_table, cursor, &TokenKind::Keyword(Keyword::Insert))?;
        *cursor += 1;
        expect_kind(token_table, cursor, &TokenKind::Keyword(Keyword::Into))?;
        *cursor += 1;
        let table = match token_table.get_kind(*cursor) {
            Some(TokenKind::Identifier) => token_table.source_at(*cursor),
            _ => {
                return Err(ParserError::SyntaxError(*cursor, *cursor));
            },
        };
        *cursor += 1;

        let columns = if maybe_kind(token_table, cursor, &TokenKind::LeftParen) {
            *cursor += 1;
            Some(Self::parse_columns(token_table, cursor)?)
        } else {
            None
        };

        expect_kind(token_table, cursor, &TokenKind::Keyword(Keyword::Values))?;
        *cursor += 1;
        let values = Self::parse_rows(token_table, cursor)?;
        Ok(InsertStatement { table, columns, values })
    }

    /// Parses the column list after its `(` (see [`spec_insert_columns`]).
    fn parse_columns(token_table: &TokenTable<'a>, cursor: &mut usize) -> (r: Result<Vec<&'a str>, ParserError>)
        requires
            token_table.wf(),
        ensures
            ({
                let (sr, sp) = spec_insert_columns(*token_table, *old(cursor) as int, Seq::empty());
                &&& *final(cursor) as int == sp
                &&& match r {
                    Ok(v) => sr == Ok::<Seq<&'a str>, ParserError>(v@),
                    Err(e) => sr == Err::<Seq<&'a str>, ParserError>(e),
                }
            }),
            r is Ok ==> *old(cursor) < *final(cursor) <= token_table.tokens@.len(),
            r matches Err(e) ==> e == syntax_error(*final(cursor) as int),
    {
        let ghost t = *token_table;
        let ghost start = *cursor as int;
        let mut names: Vec<&'a str> = Vec::new();
        #[verifier::loop_isolation(false)]
        loop
            invariant
                start <= *cursor,
                start < *cursor ==> *cursor <= t.num_tokens(),
                spec_insert_columns(t, start, Seq::empty()) == spec_insert_columns(t, *cursor as int, names@),
            decreases t.num_tokens() - *cursor,
        {
            match token_table.get_kind(*cursor) {
                Some(TokenKind::Identifier) => {},
                _ => {
                    return Err(ParserError::SyntaxError(*cursor, *cursor));
                },
            }
            names.push(token_table.source_at(*cursor));
            *cursor += 1;
            match token_table.get_kind(*cursor) {
                Some(TokenKind::Comma) => {
                    *cursor += 1;
                },
                Some(TokenKind::RightParen) => {
                    *cursor += 1;
                    break;
                },
                _ => {
                    return Err(ParserError::SyntaxError(*cursor, *cursor));
                },
            }
        }
        Ok(names)
    }

    /// Parses a parenthesised row (see [`spec_row`]).
    fn parse_row(token_table: &TokenTable<'a>, cursor: &mut usize) -> (r: Result<Vec<Expr<'a>>, ParserError>)
        requires
            token_table.wf(),
        ensures
            ({
                let (sr, sp) = spec_row(*token_table, *old(cursor) as int);
                &&& *final(cursor) as int == sp
                &&& match r {
                    Ok(v) => sr == Ok::<Seq<Expr<'a>>, ParserError>(v@),
                    Err(e) => sr == Err::<Seq<Expr<'a>>, ParserError>(e),
                }
            }),
            r is Ok ==> *old(cursor) < *final(cursor) <= token_table.tokens@.len(),
            r matches Err(e) ==> e == syntax_error(*final(cursor) as int),
    {
        let ghost t = *token_table;
        expect_kind(token_table, cursor, &TokenKind::LeftParen)?;
        *cursor += 1;
        let ghost start = *cursor as int;
        let mut row: Vec<Expr<'a>> = Vec::new();
        #[verifier::loop_isolation(false)]
        loop
            invariant
                start <= *cursor <= t.num_tokens(),
                row@.len() > 0 ==> start < *cursor,
                spec_row_items(t, start, Seq::empty()) == spec_row_items(t, *cursor as int, row@),
            decreases t.num_tokens() - *cursor,
        {
            let e = Expr::build(token_table, cursor)?;
            row.push(e);
            match token_table.get_kind(*cursor) {
                Some(TokenKind::Comma) => {
                    *cursor += 1;
                },
                Some(TokenKind::RightParen) => {
                    *cursor += 1;
                    break;
                },
                _ => {
                    return Err(ParserError::SyntaxError(*cursor, *cursor));
                },
            }
        }
        Ok(row)
    }

    /// Parses the rows after `VALUES` (see [`spec_rows`]).
    fn parse_rows(token_table: &TokenTable<'a>, cursor: &mut usize) -> (r: Result<Vec<Vec<Expr<'a>>>, ParserError>)
        requires
            token_table.wf(),
        ensures
            ({
                let (sr, sp) = spec_rows(*token_table, *old(cursor) as int, Seq::empty());
                &&& *final(cursor) as int == sp
                &&& match r {
                    Ok(v) => sr == Ok::<Seq<Seq<Expr<'a>>>, ParserError>(rows_view(v@)),
                    Err(e) => sr == Err::<Seq<Seq<Expr<'a>>>, ParserError>(e),
                }
            }),
            r is Ok ==> *old(cursor) < *final(cursor) <= token_table.tokens@.len(),
            r matches Err(e) ==> e == syntax_error(*final(cursor) as int),
    {
        let ghost t = *token_table;
        let ghost start = *cursor as int;
        let mut values: Vec<Vec<Expr<'a>>> = Vec::new();
        assert(rows_view(values@) =~= Seq::<Seq<Expr<'a>>>::empty());
        #[verifier::loop_isolation(false)]
        loop
            invariant
                start <= *cursor,
                start < *cursor ==> *cursor <= t.num_tokens(),
                values@.len() > 0 ==> start < *cursor,
                spec_rows(t, start, Seq::empty()) == spec_rows(t, *cursor as int, rows_view(values@)),
            decreases t.num_tokens() - *cursor,
        {
            let row = Self::parse_row(token_table, cursor)?;
            let ghost before = values@;
            values.push(row);
            assert(rows_view(values@) =~= rows_view(before).push(values@.last()@));
            if maybe_kind(token_table, cursor, &TokenKind::Comma) {
                *cursor += 1;
            } else {
                break;
            }
        }
        Ok(values)
    }
}

} // verus!
