//! The `FROM` clause: tables, subqueries, and joins between them.

use vstd::prelude::*;

use crate::ast::select::{select_view, spec_subselect, SpecSelect, SubSelectStatement};
use crate::common::alias::{parse_alias_name, spec_alias, spec_alias_name, Alias};
use crate::common::expr::{spec_class_field, spec_expr_at, Expr};
use crate::common::utils::{expect_kind, maybe_kind};
use crate::error::{syntax_error, view_result, ParserError};
use crate::keyword::Keyword;
use crate::token::{TokenKind, TokenTable};

verus! {

/// A table reference: a (possibly qualified) name, or a parenthesised
/// `SELECT`; either may carry an alias.
#[derive(Debug, PartialEq)]
pub enum Table<'a> {
    Name(Alias<'a, Expr<'a>>),
    SubQuery(Alias<'a, SubSelectStatement<'a>>),
}

/// The kinds of join.
#[derive(Debug, PartialEq, Eq, Clone, Copy, Structural)]
pub enum JoinType {
    LeftJoin,
    RightJoin,
    InnerJoin,
    CrossJoin,
    FullJoin,
}

/// A `FROM` clause: a single table, or a tree of joins.
#[derive(Debug, PartialEq)]
pub enum From<'a> {
    Table(Table<'a>),
    CrossJoin { left: Box<From<'a>>, right: Box<From<'a>> },
    NaturalJoin { left: Box<From<'a>>, right: Box<From<'a>>, join_type: JoinType },
    JoinUsing { left: Box<From<'a>>, right: Box<From<'a>>, join_type: JoinType, using: Vec<&'a str> },
    LeftJoin { left: Box<From<'a>>, right: Box<From<'a>>, condition: Expr<'a> },
    RightJoin { left: Box<From<'a>>, right: Box<From<'a>>, condition: Expr<'a> },
    InnerJoin { left: Box<From<'a>>, right: Box<From<'a>>, condition: Expr<'a> },
    FullJoin { left: Box<From<'a>>, right: Box<From<'a>>, condition: Expr<'a> },
}

/// The mathematical value of a [`Table`].
pub enum SpecTable<'a> {
    Name(Alias<'a, Expr<'a>>),
    SubQuery(Alias<'a, SpecSelect<'a>>),
}

/// The mathematical value of a [`From`]: its `USING` lists as sequences.
pub enum SpecFrom<'a> {
    Table(SpecTable<'a>),
    CrossJoin { left: Box<SpecFrom<'a>>, right: Box<SpecFrom<'a>> },
    NaturalJoin { left: Box<SpecFrom<'a>>, right: Box<SpecFrom<'a>>, join_type: JoinType },
    JoinUsing {
        left: Box<SpecFrom<'a>>,
        right: Box<SpecFrom<'a>>,
        join_type: JoinType,
        using: Seq<&'a str>,
    },
    LeftJoin { left: Box<SpecFrom<'a>>, right: Box<SpecFrom<'a>>, condition: Expr<'a> },
    RightJoin { left: Box<SpecFrom<'a>>, right: Box<SpecFrom<'a>>, condition: Expr<'a> },
    InnerJoin { left: Box<SpecFrom<'a>>, right: Box<SpecFrom<'a>>, condition: Expr<'a> },
    FullJoin { left: Box<SpecFrom<'a>>, right: Box<SpecFrom<'a>>, condition: Expr<'a> },
}

pub open spec fn table_view<'a>(t: Table<'a>) -> SpecTable<'a>
    decreases t,
{
    match t {
        Table::Name(a) => SpecTable::Name(Alias { name: a.name, value: a.value }),
        Table::SubQuery(a) => SpecTable::SubQuery(
            Alias { name: a.name, value: select_view(*a.value.select) },
        ),
    }
}

pub open spec fn from_view<'a>(f: From<'a>) -> SpecFrom<'a>
    decreases f,
{
    match f {
        From::Table(t) => SpecFrom::Table(table_view(t)),
        From::CrossJoin { left, right } => SpecFrom::CrossJoin {
            left: Box::new(from_view(*left)),
            right: Box::new(from_view(*right)),
        },
        From::NaturalJoin { left, right, join_type } => SpecFrom::NaturalJoin {
            left: Box::new(from_view(*left)),
            right: Box::new(from_view(*right)),
            join_type,
        },
        From::JoinUsing { left, right, join_type, using } => SpecFrom::JoinUsing {
            left: Box::new(from_view(*left)),
            right: Box::new(from_view(*right)),
            join_type,
            using: using@,
        },
        From::LeftJoin { left, right, condition } => SpecFrom::LeftJoin {
            left: Box::new(from_view(*left)),
            right: Box::new(from_view(*right)),
            condition,
        },
        From::RightJoin { left, right, condition } => SpecFrom::RightJoin {
            left: Box::new(from_view(*left)),
            right: Box::new(from_view(*right)),
            condition,
        },
        From::InnerJoin { left, right, condition } => SpecFrom::InnerJoin {
            left: Box::new(from_view(*left)),
            right: Box::new(from_view(*right)),
            condition,
        },
        From::FullJoin { left, right, condition } => SpecFrom::FullJoin {
            left: Box::new(from_view(*left)),
            right: Box::new(from_view(*right)),
            condition,
        },
    }
}

impl<'a> View for Table<'a> {
    type V = SpecTable<'a>;

    open spec fn view(&self) -> SpecTable<'a> {
        table_view(*self)
    }
}

impl<'a> View for From<'a> {
    type V = SpecFrom<'a>;

    open spec fn view(&self) -> SpecFrom<'a> {
        from_view(*self)
    }
}

/// The join with an `ON` condition of kind `jt`.
pub open spec fn on_join<'a>(jt: JoinType, left: SpecFrom<'a>, right: SpecFrom<'a>, condition: Expr<'a>) -> SpecFrom<'a> {
    match jt {
        JoinType::LeftJoin => SpecFrom::LeftJoin { left: Box::new(left), right: Box::new(right), condition },
        JoinType::RightJoin => SpecFrom::RightJoin { left: Box::new(left), right: Box::new(right), condition },
        JoinType::FullJoin => SpecFrom::FullJoin { left: Box::new(left), right: Box::new(right), condition },
        _ => SpecFrom::InnerJoin { left: Box::new(left), right: Box::new(right), condition },
    }
}

/// A table reference at `pos`: after `(`, a parenthesised `SELECT` and its
/// optional alias; otherwise a column-like name (see
/// [`spec_class_field`]) and its optional alias.
pub open spec fn spec_table<'a>(t: TokenTable<'a>, pos: int) -> (Result<SpecTable<'a>, ParserError>, int)
    decreases t.num_tokens() - pos, 1int,
{
    if t.is_kind(pos, TokenKind::LeftParen) {
        let (rs, p) = spec_subselect(t, pos);
        match rs {
            Err(e) => (Err(e), p),
            Ok(s) => {
                let (rn, q) = spec_alias_name(t, p);
                match rn {
                    Err(e) => (Err(e), q),
                    Ok(name) => (Ok(SpecTable::SubQuery(Alias { name, value: s })), q),
                }
            },
        }
    } else {
        let (ra, p) = spec_alias::<'a, Expr<'a>>(t, pos);
        match ra {
            Err(e) => (Err(e), p),
            Ok(a) => (Ok(SpecTable::Name(a)), p),
        }
    }
}

/// A `FROM` clause at `pos`: a table reference followed by its joins.
pub open spec fn spec_from<'a>(t: TokenTable<'a>, pos: int) -> (Result<SpecFrom<'a>, ParserError>, int)
    decreases t.num_tokens() - pos, 2int,
{
    let (rt, p) = spec_table(t, pos);
    match rt {
        Err(e) => (Err(e), p),
        Ok(tb) => if pos < p <= t.num_tokens() {
            spec_joins(t, p, SpecFrom::Table(tb))
        } else {
            (Ok(SpecFrom::Table(tb)), p)
        },
    }
}

/// The keywords that introduce a join at `pos`: an optional `NATURAL`, then
/// `JOIN`, `INNER JOIN`, `LEFT [OUTER] JOIN`, `RIGHT [OUTER] JOIN`,
/// `FULL [OUTER] JOIN` or `CROSS JOIN`. `Ok(None)` when no join starts here;
/// otherwise whether it is natural and its kind (`None` for a cross join),
/// with the position after `JOIN`. `NATURAL` not followed by a join keyword,
/// and `NATURAL CROSS`, are refused.
pub open spec fn spec_join_prefix<'a>(t: TokenTable<'a>, pos: int) -> (Result<Option<(bool, Option<JoinType>)>, ParserError>, int) {
    let natural = t.is_kind(pos, TokenKind::Keyword(Keyword::Natural));
    let q = if natural { pos + 1 } else { pos };
    match t.kind(q) {
        Some(TokenKind::Keyword(Keyword::Join)) => (Ok(Some((natural, Some(JoinType::InnerJoin)))), q + 1),
        Some(TokenKind::Keyword(Keyword::Inner)) => if t.is_kind(q + 1, TokenKind::Keyword(Keyword::Join)) {
            (Ok(Some((natural, Some(JoinType::InnerJoin)))), q + 2)
        } else {
            (Err(syntax_error(q + 1)), q + 1)
        },
        Some(TokenKind::Keyword(Keyword::Left)) => {
            let j = if t.is_kind(q + 1, TokenKind::Keyword(Keyword::Outer)) { q + 2 } else { q + 1 };
            if t.is_kind(j, TokenKind::Keyword(Keyword::Join)) {
                (Ok(Some((natural, Some(JoinType::LeftJoin)))), j + 1)
            } else {
                (Err(syntax_error(j)), j)
            }
        },
        Some(TokenKind::Keyword(Keyword::Right)) => {
            let j = if t.is_kind(q + 1, TokenKind::Keyword(Keyword::Outer)) { q + 2 } else { q + 1 };
            if t.is_kind(j, TokenKind::Keyword(Keyword::Join)) {
                (Ok(Some((natural, Some(JoinType::RightJoin)))), j + 1)
            } else {
                (Err(syntax_error(j)), j)
            }
        },
        Some(TokenKind::Keyword(Keyword::Full)) => {
            let j = if t.is_kind(q + 1, TokenKind::Keyword(Keyword::Outer)) { q + 2 } else { q + 1 };
            if t.is_kind(j, TokenKind::Keyword(Keyword::Join)) {
                (Ok(Some((natural, Some(JoinType::FullJoin)))), j + 1)
            } else {
                (Err(syntax_error(j)), j)
            }
        },
        Some(TokenKind::Keyword(Keyword::Cross)) => if natural {
            (Err(syntax_error(q)), q)
        } else if t.is_kind(q + 1, TokenKind::Keyword(Keyword::Join)) {
            (Ok(Some((false, None))), q + 2)
        } else {
            (Err(syntax_error(q + 1)), q + 1)
        },
        _ => if natural {
            (Err(syntax_error(q)), q)
        } else {
            (Ok(None), pos)
        },
    }
}

/// The column list of `USING (a, b, ...)`, read at the `(`: identifiers and
/// commas up to `)`; at least one identifier is needed.
pub open spec fn spec_using_list<'a>(t: TokenTable<'a>, pos: int) -> (Result<Seq<&'a str>, ParserError>, int) {
    if t.is_kind(pos, TokenKind::LeftParen) {
        spec_using_items(t, pos + 1, Seq::empty())
    } else {
        (Err(syntax_error(pos)), pos)
    }
}

/// The identifiers of a `USING` list from `pos` on, appended to `acc`.
pub open spec fn spec_using_items<'a>(t: TokenTable<'a>, pos: int, acc: Seq<&'a str>) -> (Result<Seq<&'a str>, ParserError>, int)
    decreases t.num_tokens() - pos,
{
    match t.kind(pos) {
        Some(TokenKind::Identifier) => if pos >= 0 {
            spec_using_items(t, pos + 1, acc.push(t.src(pos)))
        } else {
            (Err(syntax_error(pos)), pos)
        },
        Some(TokenKind::Comma) => if pos >= 0 {
            spec_using_items(t, pos + 1, acc)
        } else {
            (Err(syntax_error(pos)), pos)
        },
        Some(TokenKind::RightParen) => if acc.len() == 0 {
            (Err(syntax_error(pos + 1)), pos + 1)
        } else {
            (Ok(acc), pos + 1)
        },
        _ => (Err(syntax_error(pos)), pos),
    }
}

/// `USING (...)` at `pos`, unless the join is natural: `Ok(None)` when the
/// token at `pos` is not `USING`.
pub open spec fn spec_join_on_using<'a>(t: TokenTable<'a>, pos: int, is_natural: bool) -> (Result<Option<Seq<&'a str>>, ParserError>, int) {
    if is_natural {
        (Ok(None), pos)
    } else if t.is_kind(pos, TokenKind::Keyword(Keyword::Using)) {
        let (r, p) = spec_using_list(t, pos + 1);
        match r {
            Err(e) => (Err(e), p),
            Ok(cols) => (Ok(Some(cols)), p),
        }
    } else {
        (Ok(None), pos)
    }
}

/// The operands of a join whose keywords end before `pos`, with `current` as
/// what was parsed so far. The left operand is `current` extended by the joins
/// that start at `pos` (none, unless a join keyword follows directly); the
/// right operand is a whole `FROM` clause, so that it takes the joins after
/// it. Then comes, unless the join is natural or a cross join, `USING (...)`
/// or `ON` and a condition.
pub open spec fn spec_join_operands<'a>(
    t: TokenTable<'a>,
    pos: int,
    current: SpecFrom<'a>,
    natural: bool,
    join_type: Option<JoinType>,
) -> (Result<SpecFrom<'a>, ParserError>, int)
    decreases t.num_tokens() - pos, 4int,
{
    let (rl, pl) = spec_joins(t, pos, current);
    match rl {
        Err(e) => (Err(e), pl),
        Ok(left) => if pos <= pl <= t.num_tokens() {
            let (rr, pr) = spec_from(t, pl);
            match rr {
                Err(e) => (Err(e), pr),
                Ok(right) => match join_type {
                    None => (Ok(SpecFrom::CrossJoin { left: Box::new(left), right: Box::new(right) }), pr),
                    Some(jt) => if natural {
                        (Ok(SpecFrom::NaturalJoin { left: Box::new(left), right: Box::new(right), join_type: jt }), pr)
                    } else {
                        let (ru, pu) = spec_join_on_using(t, pr, false);
                        match ru {
                            Err(e) => (Err(e), pu),
                            Ok(Some(using)) => (
                                Ok(SpecFrom::JoinUsing {
                                    left: Box::new(left),
                                    right: Box::new(right),
                                    join_type: jt,
                                    using,
                                }),
                                pu,
                            ),
                            Ok(None) => if t.is_kind(pu, TokenKind::Keyword(Keyword::On)) {
                                let (rc, pc) = spec_expr_at(t, pu + 1);
                                match rc {
                                    Err(e) => (Err(e), pc),
                                    Ok(c) => (Ok(on_join(jt, left, right, c)), pc),
                                }
                            } else {
                                (Err(syntax_error(pu)), pu)
                            },
                        }
                    },
                },
            }
        } else {
            (Ok(left), pl)
        },
    }
}

/// The joins that follow `current` from `pos` on; each join takes what was
/// parsed so far as its left operand.
pub open spec fn spec_joins<'a>(t: TokenTable<'a>, pos: int, current: SpecFrom<'a>) -> (Result<SpecFrom<'a>, ParserError>, int)
    decreases t.num_tokens() - pos, 3int,
{
    let (rp, s) = spec_join_prefix(t, pos);
    match rp {
        Err(e) => (Err(e), s),
        Ok(None) => (Ok(current), s),
        Ok(Some((natural, join_type))) => if pos < s <= t.num_tokens() {
            let (rj, p) = spec_join_operands(t, s, current, natural, join_type);
            match rj {
                Err(e) => (Err(e), p),
                Ok(next) => if s < p <= t.num_tokens() {
                    spec_joins(t, p, next)
                } else {
                    (Ok(next), p)
                },
            }
        } else {
            (Ok(current), s)
        },
    }
}

impl<'a> Table<'a> {
    /// Parses a column-like table name at `cursor`, with no alias.
    pub fn class_name_with_single(token_table: &TokenTable<'a>, cursor: &mut usize) -> (r: Result<Self, ParserError>)
        requires
            token_table.wf(),
        ensures
            ({
                let (sr, sp) = spec_class_field(*token_table, *old(cursor) as int);
                &&& *final(cursor) as int == sp
                &&& match r {
                    Ok(tb) => sr matches Ok(e) && tb@ == SpecTable::Name(Alias { name: None, value: e }),
                    Err(err) => sr == Err::<Expr<'a>, ParserError>(err),
                }
            }),
            r is Ok ==> *old(cursor) < *final(cursor) <= token_table.tokens@.len(),
            r matches Err(e) ==> e == syntax_error(*final(cursor) as int),
    {
        let expr = Expr::class_field(token_table, cursor)?;
        Ok(Self::Name(Alias { name: None, value: expr }))
    }

    /// Parses a table reference at `cursor` (see [`spec_table`]).
    pub fn build(token_table: &TokenTable<'a>, cursor: &mut usize) -> (r: Result<Self, ParserError>)
        requires
            token_table.wf(),
        ensures
            (view_result(r), *final(cursor) as int) == spec_table(*token_table, *old(cursor) as int),
            r is Ok ==> *old(cursor) < *final(cursor) <= token_table.tokens@.len(),
            r matches Err(e) ==> e == syntax_error(*final(cursor) as int),
        decreases token_table.tokens@.len() - *old(cursor), 1int,
    {
        if let Some(TokenKind::LeftParen) = token_table.get_kind(*cursor) {
            let sub = SubSelectStatement::build(token_table, cursor)?;
            let name = parse_alias_name(token_table, cursor)?;
            Ok(Table::SubQuery(Alias { name, value: sub }))
        } else {
            let alias = Alias::new(token_table, cursor)?;
            Ok(Table::Name(alias))
        }
    }
}

impl<'a> From<'a> {
    /// Parses a `FROM` clause at `cursor` (see [`spec_from`]).
    pub fn parse(token_table: &TokenTable<'a>, cursor: &mut usize) -> (r: Result<Self, ParserError>)
        requires
            token_table.wf(),
        ensures
            (view_result(r), *final(cursor) as int) == spec_from(*token_table, *old(cursor) as int),
            r is Ok ==> *old(cursor) < *final(cursor) <= token_table.tokens@.len(),
            r matches Err(e) ==> e == syntax_error(*final(cursor) as int),
        decreases token_table.tokens@.len() - *old(cursor), 2int,
    {
        let left = Table::build(token_table, cursor)?;
        Self::parse_joins(token_table, cursor, From::Table(left))
    }

    /// Parses `USING (...)` at `cursor` unless the join is natural (see
    /// [`spec_join_on_using`]).
    pub fn parse_join_on_using(token_table: &TokenTable<'a>, cursor: &mut usize, is_natural: bool) -> (r: Result<
        Option<Vec<&'a str>>,
        ParserError,
    >)
        requires
            token_table.wf(),
        ensures
            ({
                let (sr, sp) = spec_join_on_using(*token_table, *old(cursor) as int, is_natural);
                &&& *final(cursor) as int == sp
                &&& match r {
                    Ok(Some(v)) => sr == Ok::<Option<Seq<&'a str>>, ParserError>(Some(v@)),
                    Ok(None) => sr == Ok::<Option<Seq<&'a str>>, ParserError>(None),
                    Err(e) => sr == Err::<Option<Seq<&'a str>>, ParserError>(e),
                }
            }),
            r is Ok && *old(cursor) <= token_table.tokens@.len() ==> *final(cursor) <= token_table.tokens@.len(),
            r is Ok ==> *old(cursor) <= *final(cursor),
            r matches Err(e) ==> e == syntax_error(*final(cursor) as int),
    {
        if is_natural {
            return Ok(None);
        }
        if maybe_kind(token_table, cursor, &TokenKind::Keyword(Keyword::Using)) {
            *cursor += 1;
            let cols = Self::parse_using_list(token_table, cursor)?;
            Ok(Some(cols))
        } else {
            Ok(None)
        }
    }

    /// Parses the column list of `USING` at `cursor` (see [`spec_using_list`]).
    pub fn parse_using_list(token_table: &TokenTable<'a>, cursor: &mut usize) -> (r: Result<Vec<&'a str>, ParserError>)
        requires
            token_table.wf(),
        ensures
            ({
                let (sr, sp) = spec_using_list(*token_table, *old(cursor) as int);
                &&& *final(cursor) as int == sp
                &&& match r {
                    Ok(v) => sr == Ok::<Seq<&'a str>, ParserError>(v@),
                    Err(e) => sr == Err::<Seq<&'a str>, ParserError>(e),
                }
            }),
            r is Ok ==> *old(cursor) < *final(cursor) <= token_table.tokens@.len(),
            r matches Err(e) ==> e == syntax_error(*final(cursor) as int),
    {
        let ghost t = *token_table;
        let ghost pos0 = *cursor as int;
        expect_kind(token_table, cursor, &TokenKind::LeftParen)?;
        *cursor += 1;

        let mut columns: Vec<&'a str> = Vec::new();
        loop
            invariant_except_break
                token_table.wf(),
                t == *token_table,
                pos0 == *old(cursor) as int,
                pos0 < *cursor <= t.num_tokens(),
                spec_using_list(t, pos0) == spec_using_items(t, *cursor as int, columns@),
            ensures
                pos0 < *cursor <= t.num_tokens(),
                spec_using_list(t, pos0) == (if columns@.len() == 0 {
                    (Err::<Seq<&'a str>, ParserError>(syntax_error(*cursor as int)), *cursor as int)
                } else {
                    (Ok::<Seq<&'a str>, ParserError>(columns@), *cursor as int)
                }),
            decreases t.num_tokens() - *cursor,
        {
            match token_table.get_kind(*cursor) {
                Some(TokenKind::Identifier) => {
                    columns.push(token_table.source_at(*cursor));
                    *cursor += 1;
                },
                Some(TokenKind::Comma) => {
                    *cursor += 1;
                },
                Some(TokenKind::RightParen) => {
                    *cursor += 1;
                    break;
                },
                _ => {
                    return Err(ParserError::SyntaxError(*cursor, *cursor));
                },
            }
        }

        if columns.len() == 0 {
            return Err(ParserError::SyntaxError(*cursor, *cursor));
        }
        Ok(columns)
    }

    /// Parses the keywords that introduce a join (see [`spec_join_prefix`]).
    fn parse_join_prefix(token_table: &TokenTable<'a>, cursor: &mut usize) -> (r: Result<
        Option<(bool, Option<JoinType>)>,
        ParserError,
    >)
        requires
            token_table.wf(),
        ensures
            (r, *final(cursor) as int) == spec_join_prefix(*token_table, *old(cursor) as int),
            r matches Ok(Some(_)) ==> *old(cursor) < *final(cursor) <= token_table.tokens@.len(),
            r matches Err(e) ==> e == syntax_error(*final(cursor) as int),
    {
        let is_natural = if let Some(TokenKind::Keyword(Keyword::Natural)) = token_table.get_kind(*cursor) {
            *cursor += 1;
            true
        } else {
            false
        };
        match token_table.get_kind(*cursor) {
            Some(TokenKind::Keyword(Keyword::Join)) => {
                *cursor += 1;
                Ok(Some((is_natural, Some(JoinType::InnerJoin))))
            },
            Some(TokenKind::Keyword(Keyword::Inner)) => {
                *cursor += 1;
                expect_kind(token_table, cursor, &TokenKind::Keyword(Keyword::Join))?;
                *cursor += 1;
                Ok(Some((is_natural, Some(JoinType::InnerJoin))))
            },
            Some(TokenKind::Keyword(Keyword::Left)) => {
                *cursor += 1;
                if maybe_kind(token_table, cursor, &TokenKind::Keyword(Keyword::Outer)) {
                    *cursor += 1;
                }
                expect_kind(token_table, cursor, &TokenKind::Keyword(Keyword::Join))?;
                *cursor += 1;
                Ok(Some((is_natural, Some(JoinType::LeftJoin))))
            },
            Some(TokenKind::Keyword(Keyword::Right)) => {
                *cursor += 1;
                if maybe_kind(token_table, cursor, &TokenKind::Keyword(Keyword::Outer)) {
                    *cursor += 1;
                }
                expect_kind(token_table, cursor, &TokenKind::Keyword(Keyword::Join))?;
                *cursor += 1;
                Ok(Some((is_natural, Some(JoinType::RightJoin))))
            },
            Some(TokenKind::Keyword(Keyword::Full)) => {
                *cursor += 1;
                if maybe_kind(token_table, cursor, &TokenKind::Keyword(Keyword::Outer)) {
                    *cursor += 1;
                }
                expect_kind(token_table, cursor, &TokenKind::Keyword(Keyword::Join))?;
                *cursor += 1;
                Ok(Some((is_natural, Some(JoinType::FullJoin))))
            },
            Some(TokenKind::Keyword(Keyword::Cross)) => {
                if is_natural {
                    return Err(ParserError::SyntaxError(*cursor, *cursor));
                }
                *cursor += 1;
                expect_kind(token_table, cursor, &TokenKind::Keyword(Keyword::Join))?;
                *cursor += 1;
                Ok(Some((false, None)))
            },
            _ => {
                if is_natural {
                    return Err(ParserError::SyntaxError(*cursor, *cursor));
                }
                Ok(None)
            },
        }
    }

    /// Parses the operands of a join (see [`spec_join_operands`]).
    fn parse_join_operands(
        token_table: &TokenTable<'a>,
        cursor: &mut usize,
        current: From<'a>,
        is_natural: bool,
        join_type: Option<JoinType>,
    ) -> (r: Result<Self, ParserError>)
        requires
            token_table.wf(),
            *old(cursor) <= token_table.tokens@.len(),
        ensures
            (view_result(r), *final(cursor) as int) == spec_join_operands(
                *token_table,
                *old(cursor) as int,
                current@,
                is_natural,
                join_type,
            ),
            r is Ok ==> *old(cursor) < *final(cursor) <= token_table.tokens@.len(),
            r matches Err(e) ==> e == syntax_error(*final(cursor) as int),
        decreases token_table.tokens@.len() - *old(cursor), 4int,
    {
        let left = Box::new(Self::parse_joins(token_table, cursor, current)?);
        let right = Box::new(Self::parse(token_table, cursor)?);
        let join_type = match join_type {
            None => {
                return Ok(From::CrossJoin { left, right });
            },
            Some(jt) => jt,
        };
        if is_natural {
            return Ok(From::NaturalJoin { left, right, join_type });
        }
        if let Some(using) = Self::parse_join_on_using(token_table, cursor, false)? {
            return Ok(From::JoinUsing { left, right, join_type, using });
        }
        expect_kind(token_table, cursor, &TokenKind::Keyword(Keyword::On))?;
        *cursor += 1;
        let condition = Expr::build(token_table, cursor)?;
        Ok(
            match join_type {
                JoinType::LeftJoin => From::LeftJoin { left, right, condition },
                JoinType::RightJoin => From::RightJoin { left, right, condition },
                JoinType::FullJoin => From::FullJoin { left, right, condition },
                _ => From::InnerJoin { left, right, condition },
            },
        )
    }

    /// Parses the joins that follow `current` (see [`spec_joins`]).
    pub fn parse_joins(token_table: &TokenTable<'a>, cursor: &mut usize, current: From<'a>) -> (r: Result<
        Self,
        ParserError,
    >)
        requires
            token_table.wf(),
        ensures
            (view_result(r), *final(cursor) as int) == spec_joins(
                *token_table,
                *old(cursor) as int,
                current@,
            ),
            r is Ok ==> *old(cursor) <= *final(cursor),
            r matches Err(e) ==> e == syntax_error(*final(cursor) as int),
            r is Ok && *old(cursor) <= token_table.tokens@.len() ==> *final(cursor) <= token_table.tokens@.len(),
        decreases token_table.tokens@.len() - *old(cursor), 3int,
    {
        let ghost t = *token_table;
        let ghost pos0 = *cursor as int;
        let ghost cur0 = current@;
        let mut current = current;
        #[verifier::loop_isolation(false)]
        loop
            invariant
                pos0 <= *cursor,
                pos0 <= t.num_tokens() ==> *cursor <= t.num_tokens(),
                spec_joins(t, pos0, cur0) == spec_joins(t, *cursor as int, current@),
            decreases t.num_tokens() - *cursor,
        {
            let (is_natural, join_type) = match Self::parse_join_prefix(token_table, cursor)? {
                Some(p) => p,
                None => break,
            };
            current = Self::parse_join_operands(token_table, cursor, current, is_natural, join_type)?;
        }
        Ok(current)
    }
}

/// `OUTER` is optional: `LEFT OUTER JOIN` reads as `LEFT JOIN`, and likewise
/// for `RIGHT` and `FULL`; both end right after `JOIN`.
pub proof fn law_outer_is_optional<'a>(t1: TokenTable<'a>, p1: int, t2: TokenTable<'a>, p2: int, side: Keyword)
    requires
        side == Keyword::Left || side == Keyword::Right || side == Keyword::Full,
        t1.is_kind(p1, TokenKind::Keyword(side)),
        t1.is_kind(p1 + 1, TokenKind::Keyword(Keyword::Outer)),
        t1.is_kind(p1 + 2, TokenKind::Keyword(Keyword::Join)),
        t2.is_kind(p2, TokenKind::Keyword(side)),
        t2.is_kind(p2 + 1, TokenKind::Keyword(Keyword::Join)),
    ensures
        spec_join_prefix(t1, p1).0 == spec_join_prefix(t2, p2).0,
        spec_join_prefix(t1, p1).0 is Ok,
        spec_join_prefix(t1, p1).1 == p1 + 3,
        spec_join_prefix(t2, p2).1 == p2 + 2,
{
}

/// `INNER` is optional: `INNER JOIN` reads as `JOIN`, an inner join.
pub proof fn law_inner_is_optional<'a>(t1: TokenTable<'a>, p1: int, t2: TokenTable<'a>, p2: int)
    requires
        t1.is_kind(p1, TokenKind::Keyword(Keyword::Inner)),
        t1.is_kind(p1 + 1, TokenKind::Keyword(Keyword::Join)),
        t2.is_kind(p2, TokenKind::Keyword(Keyword::Join)),
    ensures
        spec_join_prefix(t1, p1).0 == spec_join_prefix(t2, p2).0,
        spec_join_prefix(t1, p1).0 == Ok::<Option<(bool, Option<JoinType>)>, ParserError>(
            Some((false, Some(JoinType::InnerJoin))),
        ),
{
}

/// An `ON` join takes its kind from its keyword: the join that
/// `LEFT [OUTER] JOIN` starts at `pos` is a left join, `RIGHT [OUTER] JOIN`
/// a right join and `FULL [OUTER] JOIN` a full join, with the expression
/// after `ON` as its condition (unless `USING (...)` names the columns
/// instead). The keywords end at `pos + 2`, or `pos + 3` with `OUTER`, and
/// a table reference (a name or a parenthesised query) follows them.
pub proof fn law_on_join_kind_follows_keyword<'a>(t: TokenTable<'a>, pos: int, current: SpecFrom<'a>, side: Keyword)
    requires
        side == Keyword::Left || side == Keyword::Right || side == Keyword::Full,
        t.is_kind(pos, TokenKind::Keyword(side)),
        t.is_kind(pos + 1, TokenKind::Keyword(Keyword::Join)) || (t.is_kind(pos + 1, TokenKind::Keyword(Keyword::Outer))
            && t.is_kind(pos + 2, TokenKind::Keyword(Keyword::Join))),
        ({
            let s = if t.is_kind(pos + 1, TokenKind::Keyword(Keyword::Outer)) { pos + 3 } else { pos + 2 };
            t.is_kind(s, TokenKind::Identifier) || t.is_kind(s, TokenKind::LeftParen)
        }),
    ensures
        ({
            let s = if t.is_kind(pos + 1, TokenKind::Keyword(Keyword::Outer)) { pos + 3 } else { pos + 2 };
            let (rp, sp) = spec_join_prefix(t, pos);
            &&& sp == s
            &&& rp matches Ok(Some((natural, Some(jt)))) && !natural && {
                let (r, p) = spec_join_operands(t, s, current, false, Some(jt));
                r matches Ok(f) ==> match f {
                    SpecFrom::JoinUsing { join_type, .. } => {
                        &&& side == Keyword::Left ==> join_type == JoinType::LeftJoin
                        &&& side == Keyword::Right ==> join_type == JoinType::RightJoin
                        &&& side == Keyword::Full ==> join_type == JoinType::FullJoin
                    },
                    SpecFrom::LeftJoin { condition, .. } => side == Keyword::Left && exists|q: int|
                        t.is_kind(q, TokenKind::Keyword(Keyword::On)) && #[trigger] spec_expr_at(t, q + 1) == (
                            Ok::<Expr<'a>, ParserError>(condition),
                            p,
                        ),
                    SpecFrom::RightJoin { condition, .. } => side == Keyword::Right && exists|q: int|
                        t.is_kind(q, TokenKind::Keyword(Keyword::On)) && #[trigger] spec_expr_at(t, q + 1) == (
                            Ok::<Expr<'a>, ParserError>(condition),
                            p,
                        ),
                    SpecFrom::FullJoin { condition, .. } => side == Keyword::Full && exists|q: int|
                        t.is_kind(q, TokenKind::Keyword(Keyword::On)) && #[trigger] spec_expr_at(t, q + 1) == (
                            Ok::<Expr<'a>, ParserError>(condition),
                            p,
                        ),
                    _ => false,
                }
            }
        }),
{
    let s = if t.is_kind(pos + 1, TokenKind::Keyword(Keyword::Outer)) { pos + 3 } else { pos + 2 };
    let (rp, sp) = spec_join_prefix(t, pos);
    assert(sp == s);
    let jt = if side == Keyword::Left {
        JoinType::LeftJoin
    } else if side == Keyword::Right {
        JoinType::RightJoin
    } else {
        JoinType::FullJoin
    };
    assert(rp == Ok::<Option<(bool, Option<JoinType>)>, ParserError>(Some((false, Some(jt)))));
    let (r, p) = spec_join_operands(t, s, current, false, Some(jt));
    let (rl, pl) = spec_joins(t, s, current);
    if let Ok(left) = rl {
        if s <= pl <= t.num_tokens() {
            let (rr, pr) = spec_from(t, pl);
            if let Ok(right) = rr {
                let (ru, pu) = spec_join_on_using(t, pr, false);
                if let Ok(None) = ru {
                    if t.is_kind(pu, TokenKind::Keyword(Keyword::On)) {
                        let (rc, pc) = spec_expr_at(t, pu + 1);
                        if let Ok(c) = rc {
                            assert(r == Ok::<SpecFrom<'a>, ParserError>(on_join(jt, left, right, c)));
                            assert(p == pc);
                            assert(t.is_kind(pu, TokenKind::Keyword(Keyword::On)) && spec_expr_at(t, pu + 1) == (
                                Ok::<Expr<'a>, ParserError>(c),
                                p,
                            ));
                        }
                    }
                }
            }
        }
    }
}

/// `JOIN` and `INNER JOIN` with `ON` give an inner join, with the expression
/// after `ON` as its condition (unless `USING (...)` names the columns
/// instead); a table reference follows the keywords.
pub proof fn law_plain_join_is_inner<'a>(t: TokenTable<'a>, pos: int, current: SpecFrom<'a>)
    requires
        t.is_kind(pos, TokenKind::Keyword(Keyword::Join)) || (t.is_kind(pos, TokenKind::Keyword(Keyword::Inner))
            && t.is_kind(pos + 1, TokenKind::Keyword(Keyword::Join))),
        ({
            let s = if t.is_kind(pos, TokenKind::Keyword(Keyword::Inner)) { pos + 2 } else { pos + 1 };
            t.is_kind(s, TokenKind::Identifier) || t.is_kind(s, TokenKind::LeftParen)
        }),
    ensures
        ({
            let s = if t.is_kind(pos, TokenKind::Keyword(Keyword::Inner)) { pos + 2 } else { pos + 1 };
            let (rp, sp) = spec_join_prefix(t, pos);
            &&& sp == s
            &&& rp == Ok::<Option<(bool, Option<JoinType>)>, ParserError>(Some((false, Some(JoinType::InnerJoin))))
            &&& {
                let (r, p) = spec_join_operands(t, s, current, false, Some(JoinType::InnerJoin));
                r matches Ok(f) ==> match f {
                    SpecFrom::JoinUsing { join_type, .. } => join_type == JoinType::InnerJoin,
                    SpecFrom::InnerJoin { condition, .. } => exists|q: int|
                        t.is_kind(q, TokenKind::Keyword(Keyword::On)) && #[trigger] spec_expr_at(t, q + 1) == (
                            Ok::<Expr<'a>, ParserError>(condition),
                            p,
                        ),
                    _ => false,
                }
            }
        }),
{
    let s = if t.is_kind(pos, TokenKind::Keyword(Keyword::Inner)) { pos + 2 } else { pos + 1 };
    let jt = JoinType::InnerJoin;
    let (r, p) = spec_join_operands(t, s, current, false, Some(jt));
    let (rl, pl) = spec_joins(t, s, current);
    if let Ok(left) = rl {
        if s <= pl <= t.num_tokens() {
            let (rr, pr) = spec_from(t, pl);
            if let Ok(right) = rr {
                let (ru, pu) = spec_join_on_using(t, pr, false);
                if let Ok(None) = ru {
                    if t.is_kind(pu, TokenKind::Keyword(Keyword::On)) {
                        let (rc, pc) = spec_expr_at(t, pu + 1);
                        if let Ok(c) = rc {
                            assert(r == Ok::<SpecFrom<'a>, ParserError>(on_join(jt, left, right, c)));
                            assert(t.is_kind(pu, TokenKind::Keyword(Keyword::On)) && spec_expr_at(t, pu + 1) == (
                                Ok::<Expr<'a>, ParserError>(c),
                                p,
                            ));
                        }
                    }
                }
            }
        }
    }
}

} // verus!
