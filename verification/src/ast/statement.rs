//! A script: statements separated by delimiters.

use vstd::prelude::*;

use super::{ddl::DdlStatement, insert::InsertStatement, update::UpdateStatement};
use crate::ast::ddl::{spec_ddl, SpecDdlStatement};
use crate::ast::delete::{spec_delete, DeleteStatement, SpecDeleteStatement};
use crate::ast::insert::{spec_insert, SpecInsertStatement};
use crate::ast::query::{bindings_view, spec_cte, spec_query, Cte, Query, SpecQuery};
use crate::ast::update::{spec_update, SpecUpdateStatement};
use crate::error::{syntax_error, view_result, ParserError};
use crate::keyword::Keyword;
use crate::token::{TokenKind, TokenTable};

verus! {

/// The statements of a script, in order.
#[derive(Debug, PartialEq)]
pub struct Statement<'a> {
    pub list: Vec<StatementInner<'a>>,
}

/// One statement.
#[derive(Debug, PartialEq)]
pub enum StatementInner<'a> {
    Query(Query<'a>),
    Insert(InsertStatement<'a>),
    Update(UpdateStatement<'a>),
    Delete(DeleteStatement<'a>),
    Ddl(DdlStatement<'a>),
}

/// The mathematical value of a [`StatementInner`].
pub enum SpecStatementInner<'a> {
    Query(SpecQuery<'a>),
    Insert(SpecInsertStatement<'a>),
    Update(SpecUpdateStatement<'a>),
    Delete(SpecDeleteStatement<'a>),
    Ddl(SpecDdlStatement<'a>),
}

impl<'a> View for StatementInner<'a> {
    type V = SpecStatementInner<'a>;

    open spec fn view(&self) -> SpecStatementInner<'a> {
        match self {
            StatementInner::Query(q) => SpecStatementInner::Query(q@),
            StatementInner::Insert(s) => SpecStatementInner::Insert(s@),
            StatementInner::Update(s) => SpecStatementInner::Update(s@),
            StatementInner::Delete(s) => SpecStatementInner::Delete(s@),
            StatementInner::Ddl(s) => SpecStatementInner::Ddl(s@),
        }
    }
}

/// The statements of a list, each taken by its view.
pub open spec fn statements_view<'a>(v: Seq<StatementInner<'a>>) -> Seq<SpecStatementInner<'a>> {
    v.map_values(|s: StatementInner<'a>| s@)
}

impl<'a> View for Statement<'a> {
    type V = Seq<SpecStatementInner<'a>>;

    open spec fn view(&self) -> Seq<SpecStatementInner<'a>> {
        statements_view(self.list@)
    }
}

/// One statement at `pos`, chosen by its first keyword: `WITH` (bindings,
/// then a query), `SELECT`, `INSERT`, `UPDATE`, `DELETE`, or `CREATE`,
/// `DROP`, `ALTER`.
pub open spec fn spec_statement_inner<'a>(t: TokenTable<'a>, pos: int) -> (Result<SpecStatementInner<'a>, ParserError>, int) {
    match t.kind(pos) {
        Some(TokenKind::Keyword(Keyword::With)) => {
            let (rc, p) = spec_cte(t, pos);
            match rc {
                Err(e) => (Err(e), p),
                Ok((_, ctes)) => {
                    let (rq, q) = spec_query(t, p);
                    match rq {
                        Err(e) => (Err(e), q),
                        Ok(query) => (Ok(SpecStatementInner::Query(SpecQuery::Cte { ctes, query: Box::new(query) })), q),
                    }
                },
            }
        },
        Some(TokenKind::Keyword(Keyword::Select)) => {
            let (r, p) = spec_query(t, pos);
            match r {
                Err(e) => (Err(e), p),
                Ok(q) => (Ok(SpecStatementInner::Query(q)), p),
            }
        },
        Some(TokenKind::Keyword(Keyword::Insert)) => {
            let (r, p) = spec_insert(t, pos);
            match r {
                Err(e) => (Err(e), p),
                Ok(s) => (Ok(SpecStatementInner::Insert(s)), p),
            }
        },
        Some(TokenKind::Keyword(Keyword::Update)) => {
            let (r, p) = spec_update(t, pos);
            match r {
                Err(e) => (Err(e), p),
                Ok(s) => (Ok(SpecStatementInner::Update(s)), p),
            }
        },
        Some(TokenKind::Keyword(Keyword::Delete)) => {
            let (r, p) = spec_delete(t, pos);
            match r {
                Err(e) => (Err(e), p),
                Ok(s) => (Ok(SpecStatementInner::Delete(s)), p),
            }
        },
        Some(TokenKind::Keyword(Keyword::Create)) | Some(TokenKind::Keyword(Keyword::Drop))
        | Some(TokenKind::Keyword(Keyword::Alter)) => {
            let (r, p) = spec_ddl(t, pos);
            match r {
                Err(e) => (Err(e), p),
                Ok(s) => (Ok(SpecStatementInner::Ddl(s)), p),
            }
        },
        _ => (Err(syntax_error(pos)), pos),
    }
}

/// The statements from `pos` on, appended to `acc`: delimiters are
/// skipped, every other token starts a statement, and the list ends with the
/// input; an empty list is refused.
pub open spec fn spec_statements<'a>(t: TokenTable<'a>, pos: int, acc: Seq<SpecStatementInner<'a>>) -> (Result<Seq<SpecStatementInner<'a>>, ParserError>, int)
    decreases t.num_tokens() - pos,
{
    match t.kind(pos) {
        None => if acc.len() == 0 {
            (Err(syntax_error(pos)), pos)
        } else {
            (Ok(acc), pos)
        },
        Some(TokenKind::Delimiter) => spec_statements(t, pos + 1, acc),
        Some(_) => {
            let (r, p) = spec_statement_inner(t, pos);
            match r {
                Err(e) => (Err(e), p),
                Ok(s) => if pos < p <= t.num_tokens() {
                    spec_statements(t, p, acc.push(s))
                } else {
                    (Ok(acc.push(s)), p)
                },
            }
        },
    }
}

impl<'a> Statement<'a> {
    /// Parses the statements from `cursor` to the end of the input (see
    /// [`spec_statements`]).
    pub fn new(token_table: &TokenTable<'a>, cursor: &mut usize) -> (r: Result<Self, ParserError>)
        requires
            token_table.wf(),
        ensures
            ({
                let (sr, sp) = spec_statements(*token_table, *old(cursor) as int, Seq::empty());
                &&& *final(cursor) as int == sp
                &&& match r {
                    Ok(s) => sr == Ok::<Seq<SpecStatementInner<'a>>, ParserError>(s@),
                    Err(e) => sr == Err::<Seq<SpecStatementInner<'a>>, ParserError>(e),
                }
            }),
            r matches Err(e) ==> e == syntax_error(*final(cursor) as int),
    {
        let ghost t = *token_table;
        let ghost start = *cursor as int;
        let mut list: Vec<StatementInner<'a>> = Vec::new();
        assert(statements_view(list@) =~= Seq::<SpecStatementInner<'a>>::empty());
        #[verifier::loop_isolation(false)]
        loop
            invariant
                start <= *cursor,
                start < *cursor ==> *cursor <= t.num_tokens(),
                spec_statements(t, start, Seq::empty()) == spec_statements(t, *cursor as int, statements_view(list@)),
            decreases t.num_tokens() - *cursor,
        {
            match token_table.get_kind(*cursor) {
                Some(TokenKind::Delimiter) => {
                    *cursor += 1;
                    continue;
                },
                None => {
                    break;
                },
                _ => {
                    let inner = StatementInner::new(token_table, cursor)?;
                    let ghost before = list@;
                    list.push(inner);
                    assert(statements_view(list@) =~= statements_view(before).push(list@.last()@));
                },
            }
        }

        if list.len() == 0 {
            return Err(ParserError::SyntaxError(*cursor, *cursor));
        }

        Ok(Self { list })
    }
}

impl<'a> StatementInner<'a> {
    /// Parses one statement at `cursor` (see [`spec_statement_inner`]).
    pub fn new(token_table: &TokenTable<'a>, cursor: &mut usize) -> (r: Result<Self, ParserError>)
        requires
            token_table.wf(),
        ensures
            (view_result(r), *final(cursor) as int) == spec_statement_inner(*token_table, *old(cursor) as int),
            r is Ok ==> *old(cursor) < *final(cursor) <= token_table.tokens@.len(),
            r matches Err(e) ==> e == syntax_error(*final(cursor) as int),
    {
        Self::match_statement(token_table, cursor)
    }

    fn match_statement(token_table: &TokenTable<'a>, cursor: &mut usize) -> (r: Result<Self, ParserError>)
        requires
            token_table.wf(),
        ensures
            (view_result(r), *final(cursor) as int) == spec_statement_inner(*token_table, *old(cursor) as int),
            r is Ok ==> *old(cursor) < *final(cursor) <= token_table.tokens@.len(),
            r matches Err(e) ==> e == syntax_error(*final(cursor) as int),
    {
        match token_table.get_kind(*cursor) {
            Some(TokenKind::Keyword(Keyword::With)) => {
                let cte = Cte::build(token_table, cursor)?;
                let query = Query::build(token_table, cursor)?;
                let r = Self::Query(Query::Cte { ctes: cte.bindings, query: Box::new(query) });
                assert(r@ == SpecStatementInner::Query(SpecQuery::Cte { ctes: bindings_view(cte.bindings@), query: Box::new(query@) }));
                Ok(r)
            },
            Some(TokenKind::Keyword(Keyword::Select)) => {
                let query = Query::build(token_table, cursor)?;
                Ok(Self::Query(query))
            },
            Some(TokenKind::Keyword(Keyword::Insert)) => {
                Ok(Self::Insert(InsertStatement::new(token_table, cursor)?))
            },
            Some(TokenKind::Keyword(Keyword::Update)) => {
                Ok(Self::Update(UpdateStatement::new(token_table, cursor)?))
            },
            Some(TokenKind::Keyword(Keyword::Delete)) => {
                Ok(Self::Delete(DeleteStatement::new(token_table, cursor)?))
            },
            Some(TokenKind::Keyword(Keyword::Create))
            | Some(TokenKind::Keyword(Keyword::Drop))
            | Some(TokenKind::Keyword(Keyword::Alter)) => {
                Ok(Self::Ddl(DdlStatement::build(token_table, cursor)?))
            },
            _ => Err(ParserError::SyntaxError(*cursor, *cursor)),
        }
    }
}

} // verus!
