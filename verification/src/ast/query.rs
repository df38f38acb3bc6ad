//! Queries: a `SELECT`, possibly preceded by common table expressions
//! (`WITH name AS (SELECT ...), ...`).

use vstd::prelude::*;

use crate::ast::select::{select_view, spec_select, spec_subselect, SelectStatement, SpecSelect, SubSelectStatement};
use crate::common::utils::{expect_kind, maybe_kind};
use crate::error::{syntax_error, view_result, ParserError};
use crate::keyword::Keyword;
use crate::token::{TokenKind, TokenTable};

verus! {

/// A named subquery of a `WITH` clause: `name AS (SELECT ...)`.
#[derive(Debug, PartialEq)]
pub struct CteBinding<'a> {
    pub name: &'a str,
    pub query: SubSelectStatement<'a>,
}

/// A `WITH [RECURSIVE]` clause and its bindings.
#[derive(Debug, PartialEq)]
pub struct Cte<'a> {
    pub recursive: bool,
    pub bindings: Vec<CteBinding<'a>>,
}

/// A query.
#[derive(Debug, PartialEq)]
pub enum Query<'a> {
    Select(SelectStatement<'a>),
    Cte { ctes: Vec<CteBinding<'a>>, query: Box<Query<'a>> },
}

/// The mathematical value of a [`CteBinding`].
pub struct SpecCteBinding<'a> {
    pub name: &'a str,
    pub query: SpecSelect<'a>,
}

/// The mathematical value of a [`Query`].
pub enum SpecQuery<'a> {
    Select(SpecSelect<'a>),
    Cte { ctes: Seq<SpecCteBinding<'a>>, query: Box<SpecQuery<'a>> },
}

impl<'a> View for CteBinding<'a> {
    type V = SpecCteBinding<'a>;

    open spec fn view(&self) -> SpecCteBinding<'a> {
        SpecCteBinding { name: self.name, query: self.query@ }
    }
}

/// The bindings of a list, each taken by its view.
pub open spec fn bindings_view<'a>(v: Seq<CteBinding<'a>>) -> Seq<SpecCteBinding<'a>> {
    v.map_values(|b: CteBinding<'a>| b@)
}

pub open spec fn query_view<'a>(q: Query<'a>) -> SpecQuery<'a>
    decreases q,
{
    match q {
        Query::Select(s) => SpecQuery::Select(select_view(s)),
        Query::Cte { ctes, query } => SpecQuery::Cte {
            ctes: bindings_view(ctes@),
            query: Box::new(query_view(*query)),
        },
    }
}

impl<'a> View for Query<'a> {
    type V = SpecQuery<'a>;

    open spec fn view(&self) -> SpecQuery<'a> {
        query_view(*self)
    }
}

/// A binding at `pos`: an identifier, `AS`, and a parenthesised `SELECT`.
pub open spec fn spec_cte_binding<'a>(t: TokenTable<'a>, pos: int) -> (Result<SpecCteBinding<'a>, ParserError>, int) {
    if !t.is_kind(pos, TokenKind::Identifier) {
        (Err(syntax_error(pos)), pos)
    } else if !t.is_kind(pos + 1, TokenKind::Keyword(Keyword::As)) {
        (Err(syntax_error(pos + 1)), pos + 1)
    } else {
        let (r, p) = spec_subselect(t, pos + 2);
        match r {
            Err(e) => (Err(e), p),
            Ok(query) => (Ok(SpecCteBinding { name: t.src(pos), query }), p),
        }
    }
}

/// The bindings from `pos` on, appended to `acc`, separated by commas.
pub open spec fn spec_cte_bindings<'a>(t: TokenTable<'a>, pos: int, acc: Seq<SpecCteBinding<'a>>) -> (Result<Seq<SpecCteBinding<'a>>, ParserError>, int)
    decreases t.num_tokens() - pos,
{
    let (r, p) = spec_cte_binding(t, pos);
    match r {
        Err(e) => (Err(e), p),
        Ok(b) => if t.is_kind(p, TokenKind::Comma) && pos < p {
            spec_cte_bindings(t, p + 1, acc.push(b))
        } else {
            (Ok(acc.push(b)), p)
        },
    }
}

/// A `WITH` clause at `pos`: `WITH [RECURSIVE]` and its bindings.
pub open spec fn spec_cte<'a>(t: TokenTable<'a>, pos: int) -> (Result<(bool, Seq<SpecCteBinding<'a>>), ParserError>, int) {
    if !t.is_kind(pos, TokenKind::Keyword(Keyword::With)) {
        (Err(syntax_error(pos)), pos)
    } else {
        let recursive = t.is_kind(pos + 1, TokenKind::Keyword(Keyword::Recursive));
        let p = if recursive { pos + 2 } else { pos + 1 };
        let (r, q) = spec_cte_bindings(t, p, Seq::empty());
        match r {
            Err(e) => (Err(e), q),
            Ok(bindings) => (Ok((recursive, bindings)), q),
        }
    }
}

/// A query at `pos`: a `SELECT` statement.
pub open spec fn spec_query<'a>(t: TokenTable<'a>, pos: int) -> (Result<SpecQuery<'a>, ParserError>, int) {
    let (r, p) = spec_select(t, pos);
    match r {
        Err(e) => (Err(e), p),
        Ok(s) => (Ok(SpecQuery::Select(s)), p),
    }
}

impl<'a> Cte<'a> {
    /// Parses a `WITH` clause at `cursor` (see [`spec_cte`]).
    pub fn build(token_table: &TokenTable<'a>, cursor: &mut usize) -> (r: Result<Self, ParserError>)
        requires
            token_table.wf(),
        ensures
            ({
                let (sr, sp) = spec_cte(*token_table, *old(cursor) as int);
                &&& *final(cursor) as int == sp
                &&& match r {
                    Ok(c) => sr == Ok::<(bool, Seq<SpecCteBinding<'a>>), ParserError>((c.recursive, bindings_view(c.bindings@))),
                    Err(e) => sr == Err::<(bool, Seq<SpecCteBinding<'a>>), ParserError>(e),
                }
            }),
            r is Ok ==> *old(cursor) < *final(cursor) <= token_table.tokens@.len(),
            r matches Err(e) ==> e == syntax_error(*final(cursor) as int),
    {
        let ghost t = *token_table;
        expect_kind(token_table, cursor, &TokenKind::Keyword(Keyword::With))?;
        *cursor += 1;
        let recursive = maybe_kind(token_table, cursor, &TokenKind::Keyword(Keyword::Recursive));
        if recursive {
            *cursor += 1;
        }
        let ghost start = *cursor as int;
        let mut bindings: Vec<CteBinding<'a>> = Vec::new();
        assert(bindings_view(bindings@) =~= Seq::<SpecCteBinding<'a>>::empty());
        #[verifier::loop_isolation(false)]
        loop
            invariant
                start <= *cursor <= t.num_tokens(),
                bindings@.len() > 0 ==> start < *cursor,
                spec_cte_bindings(t, start, Seq::empty()) == spec_cte_bindings(
                    t,
                    *cursor as int,
                    bindings_view(bindings@),
                ),
            decreases t.num_tokens() - *cursor,
        {
            let ghost before = bindings@;
            let binding = Self::parse_binding(token_table, cursor)?;
            bindings.push(binding);
            assert(bindings_view(bindings@) =~= bindings_view(before).push(bindings@.last()@));
            if maybe_kind(token_table, cursor, &TokenKind::Comma) {
                *cursor += 1;
            } else {
                break;
            }
        }
        Ok(Cte { recursive, bindings })
    }

    /// Parses a binding at `cursor` (see [`spec_cte_binding`]).
    fn parse_binding(token_table: &TokenTable<'a>, cursor: &mut usize) -> (r: Result<CteBinding<'a>, ParserError>)
        requires
            token_table.wf(),
        ensures
            ({
                let (sr, sp) = spec_cte_binding(*token_table, *old(cursor) as int);
                &&& *final(cursor) as int == sp
                &&& match r {
                    Ok(b) => sr == Ok::<SpecCteBinding<'a>, ParserError>(b@),
                    Err(e) => sr == Err::<SpecCteBinding<'a>, ParserError>(e),
                }
            }),
            r is Ok ==> *old(cursor) < *final(cursor) <= token_table.tokens@.len(),
            r matches Err(e) ==> e == syntax_error(*final(cursor) as int),
    {
        let name = match token_table.get_kind(*cursor) {
            Some(TokenKind::Identifier) => token_table.source_at(*cursor),
            _ => {
                return Err(ParserError::SyntaxError(*cursor, *cursor));
            },
        };
        *cursor += 1;
        expect_kind(token_table, cursor, &TokenKind::Keyword(Keyword::As))?;
        *cursor += 1;
        let query = SubSelectStatement::build(token_table, cursor)?;
        Ok(CteBinding { name, query })
    }
}

impl<'a> Query<'a> {
    /// Parses a query at `cursor` (see [`spec_query`]).
    pub fn build(token_table: &TokenTable<'a>, cursor: &mut usize) -> (r: Result<Self, ParserError>)
        requires
            token_table.wf(),
        ensures
            (view_result(r), *final(cursor) as int) == spec_query(*token_table, *old(cursor) as int),
            r is Ok ==> *old(cursor) < *final(cursor) <= token_table.tokens@.len(),
            r matches Err(e) ==> e == syntax_error(*final(cursor) as int),
    {
        let select = SelectStatement::new(token_table, cursor)?;
        Ok(Query::Select(select))
    }
}

} // verus!
