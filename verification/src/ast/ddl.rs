//! Data definition statements: `CREATE TABLE`, `DROP TABLE`, `ALTER TABLE`.

use vstd::prelude::*;

use crate::ast::select::{select_view, spec_select, SelectStatement, SpecSelect};
use crate::common::utils::{expect_kind, maybe_kind};
use crate::error::{syntax_error, view_result, ParserError};
use crate::keyword::Keyword;
use crate::token::{TokenKind, TokenTable};

verus! {

/// The constraints written after a column's type.
#[derive(Debug, PartialEq, Clone)]
pub struct ColumnConstraint<'a> {
    pub not_null: bool,
    pub default: Option<&'a str>,
    pub primary_key: bool,
    pub unique: bool,
}

/// A column definition: name, type, type parameters, constraints.
///
/// When the type has a parenthesised parameter list, `col_type_params` is
/// `Some("")`: the list is checked for balanced parentheses and skipped.
#[derive(Debug, PartialEq)]
pub struct ColumnDef<'a> {
    pub name: &'a str,
    pub col_type: &'a str,
    pub col_type_params: Option<&'a str>,
    pub constraint: ColumnConstraint<'a>,
}

/// `CREATE TABLE`, with column definitions or from a `SELECT`.
#[derive(Debug, PartialEq)]
pub enum CreateTable<'a> {
    Table { if_not_exists: bool, name: &'a str, columns: Vec<ColumnDef<'a>> },
    AsSelect { name: &'a str, columns: Option<Vec<&'a str>>, select: Box<SelectStatement<'a>> },
}

/// `DROP TABLE [IF EXISTS] names [CASCADE | RESTRICT]`.
#[derive(Debug, PartialEq)]
pub struct DropTable<'a> {
    pub if_exists: bool,
    pub names: Vec<&'a str>,
    pub cascade: bool,
}

/// The change that an `ALTER TABLE` makes.
#[derive(Debug, PartialEq)]
pub enum AlterTableOperation<'a> {
    AddColumn { column: ColumnDef<'a> },
    DropColumn { name: &'a str, cascade: bool },
    RenameTo(&'a str),
    RenameColumn { old: &'a str, new: &'a str },
}

/// `ALTER TABLE name operation`.
#[derive(Debug, PartialEq)]
pub struct AlterTable<'a> {
    pub name: &'a str,
    pub operation: AlterTableOperation<'a>,
}

/// A data definition statement.
#[derive(Debug, PartialEq)]
pub enum DdlStatement<'a> {
    CreateTable(CreateTable<'a>),
    DropTable(DropTable<'a>),
    AlterTable(AlterTable<'a>),
}

/// The mathematical value of a [`CreateTable`].
pub enum SpecCreateTable<'a> {
    Table { if_not_exists: bool, name: &'a str, columns: Seq<ColumnDef<'a>> },
    AsSelect { name: &'a str, columns: Option<Seq<&'a str>>, select: SpecSelect<'a> },
}

/// The mathematical value of a [`DropTable`].
pub struct SpecDropTable<'a> {
    pub if_exists: bool,
    pub names: Seq<&'a str>,
    pub cascade: bool,
}

/// The mathematical value of a [`DdlStatement`].
pub enum SpecDdlStatement<'a> {
    CreateTable(SpecCreateTable<'a>),
    DropTable(SpecDropTable<'a>),
    AlterTable(AlterTable<'a>),
}

impl<'a> View for CreateTable<'a> {
    type V = SpecCreateTable<'a>;

    open spec fn view(&self) -> SpecCreateTable<'a> {
        match self {
            CreateTable::Table { if_not_exists, name, columns } => SpecCreateTable::Table {
                if_not_exists: *if_not_exists,
                name: *name,
                columns: columns@,
            },
            CreateTable::AsSelect { name, columns, select } => SpecCreateTable::AsSelect {
                name: *name,
                columns: match columns {
                    Some(c) => Some(c@),
                    None => None,
                },
                select: select_view(**select),
            },
        }
    }
}

impl<'a> View for DropTable<'a> {
    type V = SpecDropTable<'a>;

    open spec fn view(&self) -> SpecDropTable<'a> {
        SpecDropTable { if_exists: self.if_exists, names: self.names@, cascade: self.cascade }
    }
}

impl<'a> View for DdlStatement<'a> {
    type V = SpecDdlStatement<'a>;

    open spec fn view(&self) -> SpecDdlStatement<'a> {
        match self {
            DdlStatement::CreateTable(c) => SpecDdlStatement::CreateTable(c@),
            DdlStatement::DropTable(d) => SpecDdlStatement::DropTable(d@),
            DdlStatement::AlterTable(a) => SpecDdlStatement::AlterTable(*a),
        }
    }
}

/// The tokens of a parenthesised list from `pos` on, when `depth` lists are
/// open: skipped up to the `)` that closes the outermost one; the end of the
/// input is refused.
pub open spec fn spec_skip_parens<'a>(t: TokenTable<'a>, pos: int, depth: nat) -> (Result<(), ParserError>, int)
    decreases t.num_tokens() - pos,
{
    match t.kind(pos) {
        None => (Err(syntax_error(pos)), pos),
        Some(TokenKind::LeftParen) => spec_skip_parens(t, pos + 1, depth + 1),
        Some(TokenKind::RightParen) => if depth <= 1 {
            (Ok(()), pos + 1)
        } else {
            spec_skip_parens(t, pos + 1, (depth - 1) as nat)
        },
        Some(_) => spec_skip_parens(t, pos + 1, depth),
    }
}

/// A column type at `pos`: an identifier, then optionally a parenthesised
/// parameter list, which gives the parameters `Some("")`.
pub open spec fn spec_column_type<'a>(t: TokenTable<'a>, pos: int) -> (Result<(&'a str, Option<&'a str>), ParserError>, int) {
    if !t.is_kind(pos, TokenKind::Identifier) {
        (Err(syntax_error(pos)), pos)
    } else if t.is_kind(pos + 1, TokenKind::LeftParen) {
        let (r, p) = spec_skip_parens(t, pos + 2, 1);
        match r {
            Err(e) => (Err(e), p),
            Ok(_) => (Ok((t.src(pos), Some(""))), p),
        }
    } else {
        (Ok((t.src(pos), None)), pos + 1)
    }
}

/// The constraints of a column from `pos` on, added to `c`: `NOT NULL`,
/// `DEFAULT literal`, `PRIMARY KEY`, `UNIQUE`, in any order and number,
/// until any other token.
pub open spec fn spec_constraints<'a>(t: TokenTable<'a>, pos: int, c: ColumnConstraint<'a>) -> (Result<ColumnConstraint<'a>, ParserError>, int)
    decreases t.num_tokens() - pos,
{
    if pos < 0 {
        (Ok(c), pos)
    } else {
        match t.kind(pos) {
            Some(TokenKind::Keyword(Keyword::Not)) => if t.is_kind(pos + 1, TokenKind::Keyword(Keyword::Null)) {
                spec_constraints(t, pos + 2, ColumnConstraint { not_null: true, ..c })
            } else {
                (Err(syntax_error(pos + 1)), pos + 1)
            },
            Some(TokenKind::Keyword(Keyword::Default)) => match t.kind(pos + 1) {
                Some(TokenKind::StringLiteral) | Some(TokenKind::Number) | Some(TokenKind::Identifier)
                | Some(TokenKind::Keyword(Keyword::True)) | Some(TokenKind::Keyword(Keyword::False))
                | Some(TokenKind::Keyword(Keyword::Null)) => spec_constraints(
                    t,
                    pos + 2,
                    ColumnConstraint { default: Some(t.src(pos + 1)), ..c },
                ),
                _ => (Err(syntax_error(pos + 1)), pos + 1),
            },
            Some(TokenKind::Keyword(Keyword::Primary)) => if t.is_kind(pos + 1, TokenKind::Keyword(Keyword::Key)) {
                spec_constraints(t, pos + 2, ColumnConstraint { primary_key: true, ..c })
            } else {
                (Err(syntax_error(pos + 1)), pos + 1)
            },
            Some(TokenKind::Keyword(Keyword::Unique)) => spec_constraints(
                t,
                pos + 1,
                ColumnConstraint { unique: true, ..c },
            ),
            _ => (Ok(c), pos),
        }
    }
}

/// No constraint.
pub open spec fn no_constraint<'a>() -> ColumnConstraint<'a> {
    ColumnConstraint { not_null: false, default: None, primary_key: false, unique: false }
}

/// A column definition at `pos`: a name, a type, and constraints.
pub open spec fn spec_column_def<'a>(t: TokenTable<'a>, pos: int) -> (Result<ColumnDef<'a>, ParserError>, int) {
    if !t.is_kind(pos, TokenKind::Identifier) {
        (Err(syntax_error(pos)), pos)
    } else {
        let (rt, p) = spec_column_type(t, pos + 1);
        match rt {
            Err(e) => (Err(e), p),
            Ok((col_type, col_type_params)) => {
                let (rc, q) = spec_constraints(t, p, no_constraint());
                match rc {
                    Err(e) => (Err(e), q),
                    Ok(constraint) => (
                        Ok(ColumnDef { name: t.src(pos), col_type, col_type_params, constraint }),
                        q,
                    ),
                }
            },
        }
    }
}

/// The column definitions of `CREATE TABLE` from `pos` on, appended to
/// `acc`: commas are skipped, an identifier starts a definition, `)` ends the
/// list, and any other token is refused.
pub open spec fn spec_column_defs<'a>(t: TokenTable<'a>, pos: int, acc: Seq<ColumnDef<'a>>) -> (Result<Seq<ColumnDef<'a>>, ParserError>, int)
    decreases t.num_tokens() - pos,
{
    match t.kind(pos) {
        Some(TokenKind::RightParen) => (Ok(acc), pos + 1),
        Some(TokenKind::Comma) => if pos >= 0 {
            spec_column_defs(t, pos + 1, acc)
        } else {
            (Err(syntax_error(pos)), pos)
        },
        Some(TokenKind::Identifier) => {
            let (r, p) = spec_column_def(t, pos);
            match r {
                Err(e) => (Err(e), p),
                Ok(d) => if pos < p <= t.num_tokens() {
                    spec_column_defs(t, p, acc.push(d))
                } else {
                    (Ok(acc.push(d)), p)
                },
            }
        },
        _ => (Err(syntax_error(pos)), pos),
    }
}

/// `[IF NOT EXISTS] name` then `(column definitions)`, `AS SELECT ...` or
/// `SELECT ...`, at `pos` (after `CREATE TABLE`).
pub open spec fn spec_create_table<'a>(t: TokenTable<'a>, pos: int) -> (Result<SpecDdlStatement<'a>, ParserError>, int) {
    let (rn, p) = if t.is_kind(pos, TokenKind::Keyword(Keyword::If)) {
        if !t.is_kind(pos + 1, TokenKind::Keyword(Keyword::Not)) {
            (Err(syntax_error(pos + 1)), pos + 1)
        } else if !t.is_kind(pos + 2, TokenKind::Keyword(Keyword::Exists)) {
            (Err(syntax_error(pos + 2)), pos + 2)
        } else {
            (Ok(true), pos + 3)
        }
    } else {
        (Ok(false), pos)
    };
    match rn {
        Err(e) => (Err(e), p),
        Ok(if_not_exists) => if !t.is_kind(p, TokenKind::Identifier) {
            (Err(syntax_error(p)), p)
        } else {
            let name = t.src(p);
            let q = p + 1;
            match t.kind(q) {
                Some(TokenKind::LeftParen) => {
                    let (rc, r) = spec_column_defs(t, q + 1, Seq::empty());
                    match rc {
                        Err(e) => (Err(e), r),
                        Ok(columns) => (
                            Ok(
                                SpecDdlStatement::CreateTable(
                                    SpecCreateTable::Table { if_not_exists, name, columns },
                                ),
                            ),
                            r,
                        ),
                    }
                },
                Some(TokenKind::Keyword(Keyword::As)) => if !t.is_kind(q + 1, TokenKind::Keyword(Keyword::Select)) {
                    (Err(syntax_error(q + 1)), q + 1)
                } else {
                    let (rs, r) = spec_select(t, q + 1);
                    match rs {
                        Err(e) => (Err(e), r),
                        Ok(select) => (
                            Ok(
                                SpecDdlStatement::CreateTable(
                                    SpecCreateTable::AsSelect { name, columns: None, select },
                                ),
                            ),
                            r,
                        ),
                    }
                },
                Some(TokenKind::Keyword(Keyword::Select)) => {
                    let (rs, r) = spec_select(t, q);
                    match rs {
                        Err(e) => (Err(e), r),
                        Ok(select) => (
                            Ok(
                                SpecDdlStatement::CreateTable(
                                    SpecCreateTable::AsSelect { name, columns: None, select },
                                ),
                            ),
                            r,
                        ),
                    }
                },
                _ => (Err(syntax_error(q)), q),
            }
        },
    }
}

/// An optional `CASCADE` (true) or `RESTRICT` (false); false when absent.
pub open spec fn spec_cascade<'a>(t: TokenTable<'a>, pos: int) -> (bool, int) {
    if t.is_kind(pos, TokenKind::Keyword(Keyword::Cascade)) {
        (true, pos + 1)
    } else if t.is_kind(pos, TokenKind::Keyword(Keyword::Restrict)) {
        (false, pos + 1)
    } else {
        (false, pos)
    }
}

/// The table names of `DROP TABLE` from `pos` on, appended to `acc`:
/// identifiers and commas, up to any other token.
pub open spec fn spec_drop_names<'a>(t: TokenTable<'a>, pos: int, acc: Seq<&'a str>) -> (Seq<&'a str>, int)
    decreases t.num_tokens() - pos,
{
    if pos < 0 {
        (acc, pos)
    } else {
        match t.kind(pos) {
            Some(TokenKind::Identifier) => spec_drop_names(t, pos + 1, acc.push(t.src(pos))),
            Some(TokenKind::Comma) => spec_drop_names(t, pos + 1, acc),
            _ => (acc, pos),
        }
    }
}

/// `[IF EXISTS] names [CASCADE | RESTRICT]` at `pos` (after `DROP TABLE`); at
/// least one name is needed.
pub open spec fn spec_drop_table<'a>(t: TokenTable<'a>, pos: int) -> (Result<SpecDdlStatement<'a>, ParserError>, int) {
    let (re, p) = if t.is_kind(pos, TokenKind::Keyword(Keyword::If)) {
        if t.is_kind(pos + 1, TokenKind::Keyword(Keyword::Exists)) {
            (Ok(true), pos + 2)
        } else {
            (Err(syntax_error(pos + 1)), pos + 1)
        }
    } else {
        (Ok(false), pos)
    };
    match re {
        Err(e) => (Err(e), p),
        Ok(if_exists) => {
            let (names, q) = spec_drop_names(t, p, Seq::empty());
            if names.len() == 0 {
                (Err(syntax_error(q)), q)
            } else {
                let (cascade, r) = spec_cascade(t, q);
                (Ok(SpecDdlStatement::DropTable(SpecDropTable { if_exists, names, cascade })), r)
            }
        },
    }
}

/// An identifier at `pos`, as its source text.
pub open spec fn spec_identifier<'a>(t: TokenTable<'a>, pos: int) -> (Result<&'a str, ParserError>, int) {
    if t.is_kind(pos, TokenKind::Identifier) {
        (Ok(t.src(pos)), pos + 1)
    } else {
        (Err(syntax_error(pos)), pos)
    }
}

/// `name` and an operation at `pos` (after `ALTER TABLE`):
/// `ADD [COLUMN] definition`, `DROP [COLUMN] name [CASCADE | RESTRICT]`,
/// `RENAME TO name`, or `RENAME [COLUMN] old TO new`.
pub open spec fn spec_alter_table<'a>(t: TokenTable<'a>, pos: int) -> (Result<SpecDdlStatement<'a>, ParserError>, int) {
    if !t.is_kind(pos, TokenKind::Identifier) {
        (Err(syntax_error(pos)), pos)
    } else {
        let name = t.src(pos);
        let c = pos + 1;
        match t.kind(c) {
            Some(TokenKind::Keyword(Keyword::Add)) => {
                let d = if t.is_kind(c + 1, TokenKind::Keyword(Keyword::Column)) { c + 2 } else { c + 1 };
                let (rd, p) = spec_column_def(t, d);
                match rd {
                    Err(e) => (Err(e), p),
                    Ok(column) => (
                        Ok(SpecDdlStatement::AlterTable(AlterTable { name, operation: AlterTableOperation::AddColumn { column } })),
                        p,
                    ),
                }
            },
            Some(TokenKind::Keyword(Keyword::Drop)) => {
                let d = if t.is_kind(c + 1, TokenKind::Keyword(Keyword::Column)) { c + 2 } else { c + 1 };
                let (ri, p) = spec_identifier(t, d);
                match ri {
                    Err(e) => (Err(e), p),
                    Ok(col_name) => {
                        let (cascade, q) = spec_cascade(t, p);
                        (
                            Ok(
                                SpecDdlStatement::AlterTable(
                                    AlterTable {
                                        name,
                                        operation: AlterTableOperation::DropColumn { name: col_name, cascade },
                                    },
                                ),
                            ),
                            q,
                        )
                    },
                }
            },
            Some(TokenKind::Keyword(Keyword::Rename)) => {
                let opt_column = t.is_kind(c + 1, TokenKind::Keyword(Keyword::Column));
                let e = if opt_column { c + 2 } else { c + 1 };
                match t.kind(e) {
                    Some(TokenKind::Keyword(Keyword::To)) => if opt_column {
                        (Err(syntax_error(e)), e)
                    } else {
                        let (ri, p) = spec_identifier(t, e + 1);
                        match ri {
                            Err(err) => (Err(err), p),
                            Ok(new_name) => (
                                Ok(
                                    SpecDdlStatement::AlterTable(
                                        AlterTable { name, operation: AlterTableOperation::RenameTo(new_name) },
                                    ),
                                ),
                                p,
                            ),
                        }
                    },
                    Some(TokenKind::Identifier) => if !t.is_kind(e + 1, TokenKind::Keyword(Keyword::To)) {
                        (Err(syntax_error(e + 1)), e + 1)
                    } else {
                        let (ri, p) = spec_identifier(t, e + 2);
                        match ri {
                            Err(err) => (Err(err), p),
                            Ok(new) => (
                                Ok(
                                    SpecDdlStatement::AlterTable(
                                        AlterTable {
                                            name,
                                            operation: AlterTableOperation::RenameColumn { old: t.src(e), new },
                                        },
                                    ),
                                ),
                                p,
                            ),
                        }
                    },
                    _ => (Err(syntax_error(e)), e),
                }
            },
            _ => (Err(syntax_error(c)), c),
        }
    }
}

/// A data definition statement at `pos`: `CREATE TABLE ...`,
/// `DROP TABLE ...` or `ALTER TABLE ...`.
pub open spec fn spec_ddl<'a>(t: TokenTable<'a>, pos: int) -> (Result<SpecDdlStatement<'a>, ParserError>, int) {
    match t.kind(pos) {
        Some(TokenKind::Keyword(Keyword::Create)) => if t.is_kind(pos + 1, TokenKind::Keyword(Keyword::Table)) {
            spec_create_table(t, pos + 2)
        } else {
            (Err(syntax_error(pos + 1)), pos + 1)
        },
        Some(TokenKind::Keyword(Keyword::Drop)) => if t.is_kind(pos + 1, TokenKind::Keyword(Keyword::Table)) {
            spec_drop_table(t, pos + 2)
        } else {
            (Err(syntax_error(pos + 1)), pos + 1)
        },
        Some(TokenKind::Keyword(Keyword::Alter)) => if t.is_kind(pos + 1, TokenKind::Keyword(Keyword::Table)) {
            spec_alter_table(t, pos + 2)
        } else {
            (Err(syntax_error(pos + 1)), pos + 1)
        },
        _ => (Err(syntax_error(pos)), pos),
    }
}

/// `IF NOT EXISTS` is what sets `if_not_exists`: in a `CREATE TABLE` with
/// column definitions parsed from `pos`, it is true exactly when the three
/// tokens after `TABLE` are `IF NOT EXISTS`, and the table's name is the
/// identifier after them (or right after `TABLE` when they are absent).
pub proof fn law_if_not_exists_follows_keywords<'a>(t: TokenTable<'a>, pos: int)
    ensures
        ({
            let (r, p) = spec_ddl(t, pos);
            let guarded = t.is_kind(pos + 2, TokenKind::Keyword(Keyword::If)) && t.is_kind(
                pos + 3,
                TokenKind::Keyword(Keyword::Not),
            ) && t.is_kind(pos + 4, TokenKind::Keyword(Keyword::Exists));
            r matches Ok(SpecDdlStatement::CreateTable(SpecCreateTable::Table { if_not_exists, name, .. })) ==> {
                &&& t.is_kind(pos, TokenKind::Keyword(Keyword::Create))
                &&& t.is_kind(pos + 1, TokenKind::Keyword(Keyword::Table))
                &&& if_not_exists == guarded
                &&& name == if guarded { t.src(pos + 5) } else { t.src(pos + 2) }
            }
        }),
{
}

/// From `from` on, the tokens of `t2` are those of `t`, one place further on.
pub open spec fn shifted_from<'a>(t: TokenTable<'a>, t2: TokenTable<'a>, from: int) -> bool {
    forall|i: int|
        i >= from ==> t2.kind(i + 1) == #[trigger] t.kind(i) && (t.kind(i) is Some ==> t2.src(i + 1) == t.src(i))
}

/// Parse outcome `b` mirrors `a` one token later: the same value on success,
/// an error where `a` fails, and a cursor one further on.
pub open spec fn shifted_outcome<T>(a: (Result<T, ParserError>, int), b: (Result<T, ParserError>, int)) -> bool {
    &&& b.1 == a.1 + 1
    &&& match a.0 {
        Ok(x) => b.0 == Ok::<T, ParserError>(x),
        Err(_) => b.0 is Err,
    }
}

proof fn lemma_skip_parens_shifted<'a>(t: TokenTable<'a>, t2: TokenTable<'a>, from: int, pos: int, depth: nat)
    requires
        shifted_from(t, t2, from),
        pos >= from,
    ensures
        shifted_outcome(spec_skip_parens(t, pos, depth), spec_skip_parens(t2, pos + 1, depth)),
        spec_skip_parens(t, pos, depth).1 >= pos,
    decreases t.num_tokens() - pos,
{
    assert(t2.kind(pos + 1) == t.kind(pos));
    match t.kind(pos) {
        None => {},
        Some(TokenKind::LeftParen) => lemma_skip_parens_shifted(t, t2, from, pos + 1, depth + 1),
        Some(TokenKind::RightParen) => if depth > 1 {
            lemma_skip_parens_shifted(t, t2, from, pos + 1, (depth - 1) as nat);
        },
        Some(_) => lemma_skip_parens_shifted(t, t2, from, pos + 1, depth),
    }
}

proof fn lemma_column_type_shifted<'a>(t: TokenTable<'a>, t2: TokenTable<'a>, from: int, pos: int)
    requires
        shifted_from(t, t2, from),
        pos >= from,
    ensures
        shifted_outcome(spec_column_type(t, pos), spec_column_type(t2, pos + 1)),
        spec_column_type(t, pos).1 >= pos,
{
    assert(t2.kind(pos + 1) == t.kind(pos));
    assert(t2.kind(pos + 2) == t.kind(pos + 1));
    if t.is_kind(pos, TokenKind::Identifier) && t.is_kind(pos + 1, TokenKind::LeftParen) {
        lemma_skip_parens_shifted(t, t2, from, pos + 2, 1);
    }
}

proof fn lemma_constraints_shifted<'a>(t: TokenTable<'a>, t2: TokenTable<'a>, from: int, pos: int, c: ColumnConstraint<'a>)
    requires
        shifted_from(t, t2, from),
        0 <= from <= pos,
    ensures
        shifted_outcome(spec_constraints(t, pos, c), spec_constraints(t2, pos + 1, c)),
    decreases t.num_tokens() - pos,
{
    assert(t2.kind(pos + 1) == t.kind(pos));
    assert(t2.kind(pos + 2) == t.kind(pos + 1));
    match t.kind(pos) {
        Some(TokenKind::Keyword(Keyword::Not)) => if t.is_kind(pos + 1, TokenKind::Keyword(Keyword::Null)) {
            lemma_constraints_shifted(t, t2, from, pos + 2, ColumnConstraint { not_null: true, ..c });
        },
        Some(TokenKind::Keyword(Keyword::Default)) => if t.kind(pos + 1) is Some {
            lemma_constraints_shifted(t, t2, from, pos + 2, ColumnConstraint { default: Some(t.src(pos + 1)), ..c });
        },
        Some(TokenKind::Keyword(Keyword::Primary)) => if t.is_kind(pos + 1, TokenKind::Keyword(Keyword::Key)) {
            lemma_constraints_shifted(t, t2, from, pos + 2, ColumnConstraint { primary_key: true, ..c });
        },
        Some(TokenKind::Keyword(Keyword::Unique)) => {
            lemma_constraints_shifted(t, t2, from, pos + 1, ColumnConstraint { unique: true, ..c });
        },
        _ => {},
    }
}

proof fn lemma_column_def_shifted<'a>(t: TokenTable<'a>, t2: TokenTable<'a>, from: int, pos: int)
    requires
        shifted_from(t, t2, from),
        0 <= from <= pos,
    ensures
        shifted_outcome(spec_column_def(t, pos), spec_column_def(t2, pos + 1)),
{
    assert(t2.kind(pos + 1) == t.kind(pos));
    if t.is_kind(pos, TokenKind::Identifier) {
        lemma_column_type_shifted(t, t2, from, pos + 1);
        let (rt, p) = spec_column_type(t, pos + 1);
        if rt is Ok {
            lemma_constraints_shifted(t, t2, from, p, no_constraint());
        }
    }
}

/// The optional `COLUMN` after `ADD`, `DROP` or `RENAME` in `ALTER TABLE`
/// changes nothing: with the keyword inserted (as token `pos + 4`, right
/// after the operation), the statement parsed from `pos` is the same, a
/// failure stays a failure, and the cursor ends one token further on.
/// `RENAME` is taken with a column name after it, since `RENAME TO` renames
/// the table and admits no `COLUMN`.
pub proof fn law_column_keyword_is_optional<'a>(t: TokenTable<'a>, t2: TokenTable<'a>, pos: int, column_src: &'a str)
    requires
        t.wf(),
        0 <= pos,
        t.is_kind(pos, TokenKind::Keyword(Keyword::Alter)),
        t.is_kind(pos + 1, TokenKind::Keyword(Keyword::Table)),
        t.is_kind(pos + 2, TokenKind::Identifier),
        t.is_kind(pos + 3, TokenKind::Keyword(Keyword::Add)) || t.is_kind(pos + 3, TokenKind::Keyword(Keyword::Drop))
            || t.is_kind(pos + 3, TokenKind::Keyword(Keyword::Rename)),
        t.is_kind(pos + 3, TokenKind::Keyword(Keyword::Rename)) ==> t.is_kind(pos + 4, TokenKind::Identifier),
        !t.is_kind(pos + 4, TokenKind::Keyword(Keyword::Column)),
        t2.tokens@ == t.tokens@.insert(pos + 4, TokenKind::Keyword(Keyword::Column)),
        t2.source_ref_list@ == t.source_ref_list@.insert(pos + 4, column_src),
    ensures
        shifted_outcome(spec_ddl(t, pos), spec_ddl(t2, pos)),
{
    let at = pos + 4;
    t.tokens@.insert_ensures(at, TokenKind::Keyword(Keyword::Column));
    t.source_ref_list@.insert_ensures(at, column_src);
    assert forall|i: int| i >= at implies t2.kind(i + 1) == #[trigger] t.kind(i) && (t.kind(i) is Some
        ==> t2.src(i + 1) == t.src(i)) by {
        if i < t.num_tokens() {
            assert(t2.tokens@[i + 1] == t.tokens@[i]);
            assert(t2.source_ref_list@[i + 1] == t.source_ref_list@[i]);
        }
    }
    assert(shifted_from(t, t2, at));
    assert(t2.kind(pos) == t.kind(pos));
    assert(t2.kind(pos + 1) == t.kind(pos + 1));
    assert(t2.kind(pos + 2) == t.kind(pos + 2));
    assert(t2.src(pos + 2) == t.src(pos + 2));
    assert(t2.kind(pos + 3) == t.kind(pos + 3));
    assert(t2.is_kind(at, TokenKind::Keyword(Keyword::Column)));
    assert(t2.kind(at + 1) == t.kind(at));
    assert(t2.kind(at + 2) == t.kind(at + 1));
    assert(t2.kind(at + 3) == t.kind(at + 2));
    if t.is_kind(pos + 3, TokenKind::Keyword(Keyword::Add)) {
        lemma_column_def_shifted(t, t2, at, at);
    } else if t.is_kind(pos + 3, TokenKind::Keyword(Keyword::Drop)) {
        if t.is_kind(at, TokenKind::Identifier) {
            assert(t2.kind(at + 2) == t.kind(at + 1));
        }
    } else {
        assert(t2.src(at + 1) == t.src(at));
    }
}

impl<'a> DdlStatement<'a> {
    /// Parses a data definition statement at `cursor` (see [`spec_ddl`]).
    pub fn build(token_table: &TokenTable<'a>, cursor: &mut usize) -> (r: Result<Self, ParserError>)
        requires
            token_table.wf(),
        ensures
            (view_result(r), *final(cursor) as int) == spec_ddl(*token_table, *old(cursor) as int),
            r is Ok ==> *old(cursor) < *final(cursor) <= token_table.tokens@.len(),
            r matches Err(e) ==> e == syntax_error(*final(cursor) as int),
    {
        match token_table.get_kind(*cursor) {
            Some(TokenKind::Keyword(Keyword::Create)) => Self::parse_create(token_table, cursor),
            Some(TokenKind::Keyword(Keyword::Drop)) => Self::parse_drop(token_table, cursor),
            Some(TokenKind::Keyword(Keyword::Alter)) => Self::parse_alter(token_table, cursor),
            _ => Err(ParserError::SyntaxError(*cursor, *cursor)),
        }
    }

    fn parse_create(token_table: &TokenTable<'a>, cursor: &mut usize) -> (r: Result<Self, ParserError>)
        requires
            token_table.wf(),
            token_table.is_kind(*old(cursor) as int, TokenKind::Keyword(Keyword::Create)),
        ensures
            (view_result(r), *final(cursor) as int) == spec_ddl(*token_table, *old(cursor) as int),
            r is Ok ==> *old(cursor) < *final(cursor) <= token_table.tokens@.len(),
            r matches Err(e) ==> e == syntax_error(*final(cursor) as int),
    {
        expect_kind(token_table, cursor, &TokenKind::Keyword(Keyword::Create))?;
        *cursor += 1;
        match token_table.get_kind(*cursor) {
            Some(TokenKind::Keyword(Keyword::Table)) => {
                *cursor += 1;
                Self::parse_create_table(token_table, cursor)
            },
            _ => Err(ParserError::SyntaxError(*cursor, *cursor)),
        }
    }

    fn parse_create_table(token_table: &TokenTable<'a>, cursor: &mut usize) -> (r: Result<Self, ParserError>)
        requires
            token_table.wf(),
        ensures
            (view_result(r), *final(cursor) as int) == spec_create_table(*token_table, *old(cursor) as int),
            r is Ok ==> *old(cursor) < *final(cursor) <= token_table.tokens@.len(),
            r matches Err(e) ==> e == syntax_error(*final(cursor) as int),
    {
        let ghost t = *token_table;
        let if_not_exists = if let Some(TokenKind::Keyword(Keyword::If)) = token_table.get_kind(*cursor) {
            *cursor += 1;
            expect_kind(token_table, cursor, &TokenKind::Keyword(Keyword::Not))?;
            *cursor += 1;
            expect_kind(token_table, cursor, &TokenKind::Keyword(Keyword::Exists))?;
            *cursor += 1;
            true
        } else {
            false
        };

        let name = match token_table.get_kind(*cursor) {
            Some(TokenKind::Identifier) => token_table.source_at(*cursor),
            _ => {
                return Err(ParserError::SyntaxError(*cursor, *cursor));
            },
        };
        *cursor += 1;

        match token_table.get_kind(*cursor) {
            Some(TokenKind::LeftParen) => {
                *cursor += 1;
                let ghost start = *cursor as int;
                let mut columns: Vec<ColumnDef<'a>> = Vec::new();
                #[verifier::loop_isolation(false)]
                loop
                    invariant
                        token_table.wf(),
                        t == *token_table,
                        start <= *cursor <= t.num_tokens(),
                        spec_column_defs(t, start, Seq::empty()) == spec_column_defs(t, *cursor as int, columns@),
                    decreases t.num_tokens() - *cursor,
                {
                    match token_table.get_kind(*cursor) {
                        Some(TokenKind::RightParen) => {
                            *cursor += 1;
                            break;
                        },
                        Some(TokenKind::Comma) => {
                            *cursor += 1;
                        },
                        Some(TokenKind::Identifier) => {
                            columns.push(Self::parse_column_def(token_table, cursor)?);
                        },
                        _ => {
                            return Err(ParserError::SyntaxError(*cursor, *cursor));
                        },
                    }
                }
                Ok(DdlStatement::CreateTable(CreateTable::Table { if_not_exists, name, columns }))
            },
            Some(TokenKind::Keyword(Keyword::As)) => {
                *cursor += 1;
                expect_kind(token_table, cursor, &TokenKind::Keyword(Keyword::Select))?;
                let select = SelectStatement::new(token_table, cursor)?;
                Ok(DdlStatement::CreateTable(CreateTable::AsSelect { name, columns: None, select: Box::new(select) }))
            },
            Some(TokenKind::Keyword(Keyword::Select)) => {
                let select = SelectStatement::new(token_table, cursor)?;
                Ok(DdlStatement::CreateTable(CreateTable::AsSelect { name, columns: None, select: Box::new(select) }))
            },
            _ => Err(ParserError::SyntaxError(*cursor, *cursor)),
        }
    }

    /// Parses a column definition at `cursor` (see [`spec_column_def`]).
    pub fn parse_column_def(token_table: &TokenTable<'a>, cursor: &mut usize) -> (r: Result<ColumnDef<'a>, ParserError>)
        requires
            token_table.wf(),
        ensures
            (r, *final(cursor) as int) == spec_column_def(*token_table, *old(cursor) as int),
            r is Ok ==> *old(cursor) < *final(cursor) <= token_table.tokens@.len(),
            r matches Err(e) ==> e == syntax_error(*final(cursor) as int),
    {
        let ghost t = *token_table;
        let name = match token_table.get_kind(*cursor) {
            Some(TokenKind::Identifier) => token_table.source_at(*cursor),
            _ => {
                return Err(ParserError::SyntaxError(*cursor, *cursor));
            },
        };
        *cursor += 1;

        let (col_type, col_type_params) = Self::parse_column_type(token_table, cursor)?;

        let mut constraint = ColumnConstraint { not_null: false, default: None, primary_key: false, unique: false };
        let ghost start = *cursor as int;

        #[verifier::loop_isolation(false)]
        loop
            invariant
                token_table.wf(),
                t == *token_table,
                start <= *cursor <= t.num_tokens(),
                spec_constraints(t, start, no_constraint()) == spec_constraints(t, *cursor as int, constraint),
            decreases t.num_tokens() - *cursor,
        {
            match token_table.get_kind(*cursor) {
                Some(TokenKind::Keyword(Keyword::Not)) => {
                    *cursor += 1;
                    expect_kind(token_table, cursor, &TokenKind::Keyword(Keyword::Null))?;
                    *cursor += 1;
                    constraint.not_null = true;
                },
                Some(TokenKind::Keyword(Keyword::Default)) => {
                    *cursor += 1;
                    let value = match token_table.get_kind(*cursor) {
                        Some(TokenKind::StringLiteral) => token_table.source_at(*cursor),
                        Some(TokenKind::Number) => token_table.source_at(*cursor),
                        Some(TokenKind::Identifier) => token_table.source_at(*cursor),
                        Some(TokenKind::Keyword(Keyword::True))
                        | Some(TokenKind::Keyword(Keyword::False)) => token_table.source_at(*cursor),
                        Some(TokenKind::Keyword(Keyword::Null)) => token_table.source_at(*cursor),
                        _ => {
                            return Err(ParserError::SyntaxError(*cursor, *cursor));
                        },
                    };
                    constraint.default = Some(value);
                    *cursor += 1;
                },
                Some(TokenKind::Keyword(Keyword::Primary)) => {
                    *cursor += 1;
                    expect_kind(token_table, cursor, &TokenKind::Keyword(Keyword::Key))?;
                    *cursor += 1;
                    constraint.primary_key = true;
                },
                Some(TokenKind::Keyword(Keyword::Unique)) => {
                    *cursor += 1;
                    constraint.unique = true;
                },
                _ => break,
            }
        }

        Ok(ColumnDef { name, col_type, col_type_params, constraint })
    }

    /// Parses a column type at `cursor` (see [`spec_column_type`]).
    pub fn parse_column_type(token_table: &TokenTable<'a>, cursor: &mut usize) -> (r: Result<
        (&'a str, Option<&'a str>),
        ParserError,
    >)
        requires
            token_table.wf(),
        ensures
            (r, *final(cursor) as int) == spec_column_type(*token_table, *old(cursor) as int),
            r is Ok ==> *old(cursor) < *final(cursor) <= token_table.tokens@.len(),
            r matches Err(e) ==> e == syntax_error(*final(cursor) as int),
    {
        let ghost t = *token_table;
        let col_type = match token_table.get_kind(*cursor) {
            Some(TokenKind::Identifier) => token_table.source_at(*cursor),
            _ => {
                return Err(ParserError::SyntaxError(*cursor, *cursor));
            },
        };
        *cursor += 1;

        let params = if let Some(TokenKind::LeftParen) = token_table.get_kind(*cursor) {
            *cursor += 1;
            let ghost start = *cursor as int;
            let mut depth: usize = 1;
            #[verifier::loop_isolation(false)]
            loop
                invariant
                    token_table.wf(),
                    t == *token_table,
                    start <= *cursor <= t.num_tokens(),
                    1 <= depth <= *cursor - start + 1,
                    spec_skip_parens(t, start, 1) == spec_skip_parens(t, *cursor as int, depth as nat),
                decreases t.num_tokens() - *cursor,
            {
                match token_table.get_kind(*cursor) {
                    Some(TokenKind::LeftParen) => {
                        *cursor += 1;
                        depth += 1;
                    },
                    Some(TokenKind::RightParen) => {
                        depth -= 1;
                        *cursor += 1;
                        if depth == 0 {
                            break;
                        }
                    },
                    Some(_) => {
                        *cursor += 1;
                    },
                    None => {
                        return Err(ParserError::SyntaxError(*cursor, *cursor));
                    },
                }
            }
            Some("")
        } else {
            None
        };

        Ok((col_type, params))
    }

    fn parse_drop(token_table: &TokenTable<'a>, cursor: &mut usize) -> (r: Result<Self, ParserError>)
        requires
            token_table.wf(),
            token_table.is_kind(*old(cursor) as int, TokenKind::Keyword(Keyword::Drop)),
        ensures
            (view_result(r), *final(cursor) as int) == spec_ddl(*token_table, *old(cursor) as int),
            r is Ok ==> *old(cursor) < *final(cursor) <= token_table.tokens@.len(),
            r matches Err(e) ==> e == syntax_error(*final(cursor) as int),
    {
        expect_kind(token_table, cursor, &TokenKind::Keyword(Keyword::Drop))?;
        *cursor += 1;
        match token_table.get_kind(*cursor) {
            Some(TokenKind::Keyword(Keyword::Table)) => {
                *cursor += 1;
                Self::parse_drop_table(token_table, cursor)
            },
            _ => Err(ParserError::SyntaxError(*cursor, *cursor)),
        }
    }

    fn parse_drop_table(token_table: &TokenTable<'a>, cursor: &mut usize) -> (r: Result<Self, ParserError>)
        requires
            token_table.wf(),
        ensures
            (view_result(r), *final(cursor) as int) == spec_drop_table(*token_table, *old(cursor) as int),
            r is Ok ==> *old(cursor) < *final(cursor) <= token_table.tokens@.len(),
            r matches Err(e) ==> e == syntax_error(*final(cursor) as int),
    {
        let ghost t = *token_table;
        let if_exists = if let Some(TokenKind::Keyword(Keyword::If)) = token_table.get_kind(*cursor) {
            *cursor += 1;
            expect_kind(token_table, cursor, &TokenKind::Keyword(Keyword::Exists))?;
            *cursor += 1;
            true
        } else {
            false
        };

        let ghost start = *cursor as int;
        let mut names: Vec<&'a str> = Vec::new();
        #[verifier::loop_isolation(false)]
        loop
            invariant
                token_table.wf(),
                t == *token_table,
                start <= *cursor,
                start <= t.num_tokens() ==> *cursor <= t.num_tokens(),
                names@.len() > 0 ==> start < *cursor <= t.num_tokens(),
                spec_drop_names(t, start, Seq::empty()) == spec_drop_names(t, *cursor as int, names@),
            decreases t.num_tokens() - *cursor,
        {
            match token_table.get_kind(*cursor) {
                Some(TokenKind::Identifier) => {
                    names.push(token_table.source_at(*cursor));
                    *cursor += 1;
                },
                Some(TokenKind::Comma) => {
                    *cursor += 1;
                },
                _ => break,
            }
        }

        if names.len() == 0 {
            return Err(ParserError::SyntaxError(*cursor, *cursor));
        }

        let cascade = if let Some(TokenKind::Keyword(Keyword::Cascade)) = token_table.get_kind(*cursor) {
            *cursor += 1;
            true
        } else if let Some(TokenKind::Keyword(Keyword::Restrict)) = token_table.get_kind(*cursor) {
            *cursor += 1;
            false
        } else {
            false
        };

        Ok(DdlStatement::DropTable(DropTable { if_exists, names, cascade }))
    }

    fn parse_alter(token_table: &TokenTable<'a>, cursor: &mut usize) -> (r: Result<Self, ParserError>)
        requires
            token_table.wf(),
            token_table.is_kind(*old(cursor) as int, TokenKind::Keyword(Keyword::Alter)),
        ensures
            (view_result(r), *final(cursor) as int) == spec_ddl(*token_table, *old(cursor) as int),
            r is Ok ==> *old(cursor) < *final(cursor) <= token_table.tokens@.len(),
            r matches Err(e) ==> e == syntax_error(*final(cursor) as int),
    {
        expect_kind(token_table, cursor, &TokenKind::Keyword(Keyword::Alter))?;
        *cursor += 1;
        match token_table.get_kind(*cursor) {
            Some(TokenKind::Keyword(Keyword::Table)) => {
                *cursor += 1;
                Self::parse_alter_table(token_table, cursor)
            },
            _ => Err(ParserError::SyntaxError(*cursor, *cursor)),
        }
    }

    fn parse_identifier(token_table: &TokenTable<'a>, cursor: &mut usize) -> (r: Result<&'a str, ParserError>)
        requires
            token_table.wf(),
        ensures
            (r, *final(cursor) as int) == spec_identifier(*token_table, *old(cursor) as int),
            r matches Err(e) ==> e == syntax_error(*final(cursor) as int),
    {
        match token_table.get_kind(*cursor) {
            Some(TokenKind::Identifier) => {
                let s = token_table.source_at(*cursor);
                *cursor += 1;
                Ok(s)
            },
            _ => Err(ParserError::SyntaxError(*cursor, *cursor)),
        }
    }

    fn parse_cascade(token_table: &TokenTable<'a>, cursor: &mut usize) -> (r: bool)
        requires
            token_table.wf(),
        ensures
            (r, *final(cursor) as int) == spec_cascade(*token_table, *old(cursor) as int),
    {
        if let Some(TokenKind::Keyword(Keyword::Cascade)) = token_table.get_kind(*cursor) {
            *cursor += 1;
            true
        } else if let Some(TokenKind::Keyword(Keyword::Restrict)) = token_table.get_kind(*cursor) {
            *cursor += 1;
            false
        } else {
            false
        }
    }

    fn parse_alter_table(token_table: &TokenTable<'a>, cursor: &mut usize) -> (r: Result<Self, ParserError>)
        requires
            token_table.wf(),
        ensures
            (view_result(r), *final(cursor) as int) == spec_alter_table(*token_table, *old(cursor) as int),
            r is Ok ==> *old(cursor) < *final(cursor) <= token_table.tokens@.len(),
            r matches Err(e) ==> e == syntax_error(*final(cursor) as int),
    {
        let name = Self::parse_identifier(token_table, cursor)?;

        match token_table.get_kind(*cursor) {
            Some(TokenKind::Keyword(Keyword::Add)) => {
                *cursor += 1;
                if maybe_kind(token_table, cursor, &TokenKind::Keyword(Keyword::Column)) {
                    *cursor += 1;
                }
                let column = Self::parse_column_def(token_table, cursor)?;
                Ok(DdlStatement::AlterTable(AlterTable { name, operation: AlterTableOperation::AddColumn { column } }))
            },
            Some(TokenKind::Keyword(Keyword::Drop)) => {
                *cursor += 1;
                if maybe_kind(token_table, cursor, &TokenKind::Keyword(Keyword::Column)) {
                    *cursor += 1;
                }
                let col_name = Self::parse_identifier(token_table, cursor)?;
                let cascade = Self::parse_cascade(token_table, cursor);
                Ok(DdlStatement::AlterTable(AlterTable { name, operation: AlterTableOperation::DropColumn { name: col_name, cascade } }))
            },
            Some(TokenKind::Keyword(Keyword::Rename)) => {
                *cursor += 1;
                let opt_column = if maybe_kind(token_table, cursor, &TokenKind::Keyword(Keyword::Column)) {
                    *cursor += 1;
                    true
                } else {
                    false
                };
                match token_table.get_kind(*cursor) {
                    Some(TokenKind::Keyword(Keyword::To)) => {
                        if opt_column {
                            return Err(ParserError::SyntaxError(*cursor, *cursor));
                        }
                        *cursor += 1;
                        let new_name = Self::parse_identifier(token_table, cursor)?;
                        Ok(DdlStatement::AlterTable(AlterTable { name, operation: AlterTableOperation::RenameTo(new_name) }))
                    },
                    Some(TokenKind::Identifier) => {
                        let old = token_table.source_at(*cursor);
                        *cursor += 1;
                        expect_kind(token_table, cursor, &TokenKind::Keyword(Keyword::To))?;
                        *cursor += 1;
                        let new = Self::parse_identifier(token_table, cursor)?;
                        Ok(DdlStatement::AlterTable(AlterTable { name, operation: AlterTableOperation::RenameColumn { old, new } }))
                    },
                    _ => Err(ParserError::SyntaxError(*cursor, *cursor)),
                }
            },
            _ => Err(ParserError::SyntaxError(*cursor, *cursor)),
        }
    }
}

} // verus!
