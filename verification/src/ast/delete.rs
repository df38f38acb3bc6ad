//! `DELETE` statements.

use vstd::prelude::*;

use minivec::MiniVec;

use crate::ast::select::spec_opt_expr_clause;
use crate::common::alias::Alias;
use crate::common::expr::{spec_class_field, spec_expr_at, Expr};
use crate::common::from::{spec_from, SpecFrom, SpecTable, From, Table};
use crate::common::utils::{expect_kind, maybe_kind};
use crate::error::{syntax_error, view_result, ParserError};
use crate::keyword::Keyword;
use crate::lists::{table_list_is_empty, table_list_items, table_list_new, table_list_push};
use crate::token::{TokenKind, TokenTable};

verus! {

/// Represents a DELETE statement.
///
/// Supports three syntactic forms:
///
/// 1. Simple single-table delete:
///    `DELETE FROM users WHERE id = 1`
///
/// 2. DELETE with JOIN for filtering (MySQL / SQL Server style):
///    `DELETE u FROM users u JOIN orders o ON u.id = o.user_id WHERE o.status = 'done'`
///
/// 3. Multi-table delete (MySQL style):
///    `DELETE u, o FROM users u JOIN orders o ON u.id = o.user_id`
///
/// The `delete_tables` field lists explicit target aliases when present.
/// When `None`, the entire FROM clause is the implicit delete target.
#[derive(Debug, PartialEq)]
pub struct DeleteStatement<'a> {
    /// Optional explicit list of table aliases to delete from.
    /// Present in MySQL-style `DELETE t1, t2 FROM ...` syntax.
    pub delete_tables: Option<MiniVec<Table<'a>>>,
    /// The FROM clause — a single table or tree of joined tables.
    pub from: From<'a>,
    /// Optional WHERE condition.
    pub conditions: Option<Expr<'a>>,
}

/// The mathematical value of a [`DeleteStatement`].
pub struct SpecDeleteStatement<'a> {
    pub delete_tables: Option<Seq<SpecTable<'a>>>,
    pub from: SpecFrom<'a>,
    pub conditions: Option<Expr<'a>>,
}

impl<'a> View for DeleteStatement<'a> {
    type V = SpecDeleteStatement<'a>;

    open spec fn view(&self) -> SpecDeleteStatement<'a> {
        SpecDeleteStatement {
            delete_tables: match self.delete_tables {
                Some(v) => Some(table_list_items(v)),
                None => None,
            },
            from: self.from@,
            conditions: self.conditions,
        }
    }
}

/// The explicit targets of a `DELETE` from `pos` on, appended to `acc`:
/// commas are skipped, an identifier starts a column-like name (with no
/// alias), and any other token ends the list.
pub open spec fn spec_delete_targets<'a>(t: TokenTable<'a>, pos: int, acc: Seq<SpecTable<'a>>) -> (Result<Seq<SpecTable<'a>>, ParserError>, int)
    decreases t.num_tokens() - pos,
{
    if pos < 0 {
        (Ok(acc), pos)
    } else {
        match t.kind(pos) {
            Some(TokenKind::Comma) => spec_delete_targets(t, pos + 1, acc),
            Some(TokenKind::Identifier) => {
                let (r, p) = spec_class_field(t, pos);
                match r {
                    Err(e) => (Err(e), p),
                    Ok(e) => {
                        let acc2 = acc.push(SpecTable::Name(Alias { name: None, value: e }));
                        if pos < p <= t.num_tokens() {
                            spec_delete_targets(t, p, acc2)
                        } else {
                            (Ok(acc2), p)
                        }
                    },
                }
            },
            _ => (Ok(acc), pos),
        }
    }
}

/// A `DELETE` statement at `pos`: `DELETE [targets] FROM from [WHERE expr]`,
/// where targets are read only when an identifier follows `DELETE`.
pub open spec fn spec_delete<'a>(t: TokenTable<'a>, pos: int) -> (Result<SpecDeleteStatement<'a>, ParserError>, int) {
    if !t.is_kind(pos, TokenKind::Keyword(Keyword::Delete)) {
        (Err(syntax_error(pos)), pos)
    } else {
        let c = pos + 1;
        let (rt, p) = if t.is_kind(c, TokenKind::Identifier) {
            let (r, q) = spec_delete_targets(t, c, Seq::empty());
            match r {
                Err(e) => (Err(e), q),
                Ok(tables) => (Ok(if tables.len() == 0 { None } else { Some(tables) }), q),
            }
        } else {
            (Ok(None), c)
        };
        match rt {
            Err(e) => (Err(e), p),
            Ok(delete_tables) => if !t.is_kind(p, TokenKind::Keyword(Keyword::From)) {
                (Err(syntax_error(p)), p)
            } else {
                let (rf, q) = spec_from(t, p + 1);
                match rf {
                    Err(e) => (Err(e), q),
                    Ok(from) => {
                        let (rw, r) = spec_opt_expr_clause(t, q, Keyword::Where);
                        match rw {
                            Err(e) => (Err(e), r),
                            Ok(conditions) => (Ok(SpecDeleteStatement { delete_tables, from, conditions }), r),
                        }
                    },
                }
            },
        }
    }
}

impl<'a> DeleteStatement<'a> {
    /// Parses a `DELETE` statement at `cursor` (see [`spec_delete`]).
    pub fn new(token_table: &TokenTable<'a>, cursor: &mut usize) -> (r: Result<Self, ParserError>)
        requires
            token_table.wf(),
        ensures
            (view_result(r), *final(cursor) as int) == spec_delete(*token_table, *old(cursor) as int),
            r is Ok ==> *old(cursor) < *final(cursor) <= token_table.tokens@.len(),
            r matches Err(e) ==> e == syntax_error(*final(cursor) as int),
    {
        Self::build_ast(token_table, cursor)
    }

    fn build_ast(token_table: &TokenTable<'a>, cursor: &mut usize) -> (r: Result<Self, ParserError>)
        requires
            token_table.wf(),
        ensures
            (view_result(r), *final(cursor) as int) == spec_delete(*token_table, *old(cursor) as int),
            r is Ok ==> *old(cursor) < *final(cursor) <= token_table.tokens@.len(),
            r matches Err(e) ==> e == syntax_error(*final(cursor) as int),
    {
        let ghost t = *token_table;
        expect_kind(token_table, cursor, &TokenKind::Keyword(Keyword::Delete))?;
        *cursor += 1;

        let delete_tables = match token_table.get_kind(*cursor) {
            Some(TokenKind::Identifier) => {
                let ghost start = *cursor as int;
                let mut tables = table_list_new();
                #[verifier::loop_isolation(false)]
                loop
                    invariant
                        start <= *cursor <= t.num_tokens(),
                        spec_delete_targets(t, start, Seq::empty()) == spec_delete_targets(
                            t,
                            *cursor as int,
                            table_list_items(tables),
                        ),
                    decreases t.num_tokens() - *cursor,
                {
                    match token_table.get_kind(*cursor) {
                        Some(TokenKind::Comma) => {
                            *cursor += 1;
                        },
                        Some(TokenKind::Identifier) => {
                            let target = Table::class_name_with_single(token_table, cursor)?;
                            table_list_push(&mut tables, target);
                        },
                        _ => break,
                    }
                }
                if table_list_is_empty(&tables) {
                    None
                } else {
                    Some(tables)
                }
            },
            _ => None,
        };

        expect_kind(token_table, cursor, &TokenKind::Keyword(Keyword::From))?;
        *cursor += 1;

        let from = From::parse(token_table, cursor)?;

        let conditions = if maybe_kind(token_table, cursor, &TokenKind::Keyword(Keyword::Where)) {
            *cursor += 1;
            Some(Expr::build(token_table, cursor)?)
        } else {
            None
        };

        Ok(Self { delete_tables, from, conditions })
    }
}

/// A `DELETE` reads the `WHERE` that follows its `FROM` clause, with or
/// without target tables. When it has conditions, they are the expression
/// parsed after a `WHERE` keyword, ending where the statement ends; when it
/// has none, the statement ends with its `FROM` clause and no `WHERE`
/// follows there.
pub proof fn law_delete_reads_where<'a>(t: TokenTable<'a>, pos: int)
    ensures
        ({
            let (r, p) = spec_delete(t, pos);
            r matches Ok(d) ==> {
                &&& d.conditions is None ==> !t.is_kind(p, TokenKind::Keyword(Keyword::Where))
                &&& match d.conditions {
                    Some(c) => exists|w: int|
                        t.is_kind(w, TokenKind::Keyword(Keyword::Where)) && #[trigger] spec_expr_at(t, w + 1) == (
                            Ok::<Expr<'a>, ParserError>(c),
                            p,
                        ),
                    None => exists|f: int|
                        t.is_kind(f, TokenKind::Keyword(Keyword::From)) && #[trigger] spec_from(t, f + 1) == (
                            Ok::<SpecFrom<'a>, ParserError>(d.from),
                            p,
                        ),
                }
            }
        }),
{
    let (r, p) = spec_delete(t, pos);
    if let Ok(d) = r {
        let c = pos + 1;
        let (rt, pt) = if t.is_kind(c, TokenKind::Identifier) {
            let (r0, q0) = spec_delete_targets(t, c, Seq::empty());
            match r0 {
                Err(e) => (Err(e), q0),
                Ok(tables) => (Ok(if tables.len() == 0 { None } else { Some(tables) }), q0),
            }
        } else {
            (Ok(None), c)
        };
        let (rf, q) = spec_from(t, pt + 1);
        assert(spec_from(t, pt + 1) == (rf, q));
        if t.is_kind(q, TokenKind::Keyword(Keyword::Where)) {
            let (rw, pw) = spec_expr_at(t, q + 1);
            assert(spec_expr_at(t, q + 1) == (rw, pw));
        }
    }
}

} // verus!
