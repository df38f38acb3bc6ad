//! `GROUP BY expr, expr, ...`

use vstd::prelude::*;

use minivec::MiniVec;

use crate::common::expr::{spec_expr_at, Expr};
use crate::common::utils::expect_kind;
use crate::error::{syntax_error, ParserError};
use crate::keyword::Keyword;
use crate::lists::{expr_list_items, expr_list_new, expr_list_push};
use crate::token::{TokenKind, TokenTable};

verus! {

/// A `GROUP BY` clause: the grouping expressions, in order.
#[derive(Debug, PartialEq)]
pub struct Group<'a> {
    pub columns: MiniVec<Expr<'a>>,
}

impl<'a> View for Group<'a> {
    type V = Seq<Expr<'a>>;

    open spec fn view(&self) -> Seq<Expr<'a>> {
        expr_list_items(self.columns)
    }
}

/// Whether the item list of a `GROUP BY` ends before a token of this kind:
/// the end of input, a delimiter, a closing parenthesis, or the keyword of a
/// following clause (`WHERE`, `GROUP`, `HAVING`, `ORDER`, `LIMIT`, `FROM`).
pub open spec fn ends_group_list(k: Option<TokenKind>) -> bool {
    match k {
        None => true,
        Some(TokenKind::RightParen) | Some(TokenKind::Delimiter) => true,
        Some(TokenKind::Keyword(Keyword::Where)) | Some(TokenKind::Keyword(Keyword::Group))
        | Some(TokenKind::Keyword(Keyword::Having)) | Some(TokenKind::Keyword(Keyword::Order))
        | Some(TokenKind::Keyword(Keyword::Limit)) | Some(TokenKind::Keyword(Keyword::From)) => true,
        _ => false,
    }
}

/// The grouping expressions from `pos` on, appended to `acc`: commas are
/// skipped, every other token starts an expression, and the list ends as
/// [`ends_group_list`] says.
pub open spec fn spec_group_items<'a>(t: TokenTable<'a>, pos: int, acc: Seq<Expr<'a>>) -> (Result<Seq<Expr<'a>>, ParserError>, int)
    decreases t.num_tokens() - pos,
{
    if ends_group_list(t.kind(pos)) || pos < 0 {
        (Ok(acc), pos)
    } else if t.is_kind(pos, TokenKind::Comma) {
        spec_group_items(t, pos + 1, acc)
    } else {
        let (r, p) = spec_expr_at(t, pos);
        match r {
            Err(e) => (Err(e), p),
            Ok(e) => if pos < p <= t.num_tokens() {
                spec_group_items(t, p, acc.push(e))
            } else {
                (Ok(acc.push(e)), p)
            },
        }
    }
}

/// A `GROUP BY` clause at `pos`.
pub open spec fn spec_group<'a>(t: TokenTable<'a>, pos: int) -> (Result<Seq<Expr<'a>>, ParserError>, int) {
    if !t.is_kind(pos, TokenKind::Keyword(Keyword::Group)) {
        (Err(syntax_error(pos)), pos)
    } else if !t.is_kind(pos + 1, TokenKind::Keyword(Keyword::By)) {
        (Err(syntax_error(pos + 1)), pos + 1)
    } else {
        spec_group_items(t, pos + 2, Seq::empty())
    }
}

impl<'a> Group<'a> {
    /// Parses a `GROUP BY` clause at `cursor` (see [`spec_group`]).
    pub fn build(token_table: &TokenTable<'a>, cursor: &mut usize) -> (r: Result<Self, ParserError>)
        requires
            token_table.wf(),
        ensures
            ({
                let (sr, sp) = spec_group(*token_table, *old(cursor) as int);
                &&& *final(cursor) as int == sp
                &&& match r {
                    Ok(g) => sr == Ok::<Seq<Expr<'a>>, ParserError>(g@),
                    Err(e) => sr == Err::<Seq<Expr<'a>>, ParserError>(e),
                }
            }),
            r is Ok ==> *old(cursor) < *final(cursor) <= token_table.tokens@.len(),
            r matches Err(e) ==> e == syntax_error(*final(cursor) as int),
    {
        let ghost t = *token_table;
        let ghost pos0 = *cursor as int;
        expect_kind(token_table, cursor, &TokenKind::Keyword(Keyword::Group))?;
        *cursor += 1;
        expect_kind(token_table, cursor, &TokenKind::Keyword(Keyword::By))?;
        *cursor += 1;

        let mut columns = expr_list_new();
        loop
            invariant_except_break
                token_table.wf(),
                t == *token_table,
                pos0 == *old(cursor) as int,
                pos0 + 2 <= *cursor <= t.num_tokens(),
                spec_group(t, pos0) == spec_group_items(t, *cursor as int, expr_list_items(columns)),
            ensures
                pos0 + 2 <= *cursor <= t.num_tokens(),
                spec_group(t, pos0) == (Ok::<Seq<Expr<'a>>, ParserError>(expr_list_items(columns)), *cursor as int),
            decreases t.num_tokens() - *cursor,
        {
            let is_clause_kw = match token_table.get_kind(*cursor) {
                Some(TokenKind::Keyword(Keyword::Where)) | Some(TokenKind::Keyword(Keyword::Group))
                | Some(TokenKind::Keyword(Keyword::Having)) | Some(TokenKind::Keyword(Keyword::Order))
                | Some(TokenKind::Keyword(Keyword::Limit)) | Some(TokenKind::Keyword(Keyword::From)) => true,
                Some(TokenKind::RightParen) | Some(TokenKind::Delimiter) => true,
                None => true,
                _ => false,
            };
            if is_clause_kw {
                break;
            }
            match token_table.get_kind(*cursor) {
                Some(TokenKind::Comma) => {
                    *cursor += 1;
                },
                Some(_) => {
                    let expr = Expr::build(token_table, cursor)?;
                    expr_list_push(&mut columns, expr);
                },
                _ => {
                    break;
                },
            }
        }

        Ok(Self { columns })
    }
}

/// A `GROUP BY` list ends before the keyword of a following clause, before
/// `)` or a delimiter, and at the end of input: when the list reaches such a
/// token (after its last item, or after a comma), it succeeds with the items
/// read so far and leaves the cursor on that token.
pub proof fn law_group_list_ends_before_clause<'a>(t: TokenTable<'a>, pos: int, items: Seq<Expr<'a>>)
    requires
        0 <= pos,
        ({
            ||| pos >= t.num_tokens()
            ||| t.is_kind(pos, TokenKind::RightParen)
            ||| t.is_kind(pos, TokenKind::Delimiter)
            ||| t.is_kind(pos, TokenKind::Keyword(Keyword::Where))
            ||| t.is_kind(pos, TokenKind::Keyword(Keyword::Group))
            ||| t.is_kind(pos, TokenKind::Keyword(Keyword::Having))
            ||| t.is_kind(pos, TokenKind::Keyword(Keyword::Order))
            ||| t.is_kind(pos, TokenKind::Keyword(Keyword::Limit))
            ||| t.is_kind(pos, TokenKind::Keyword(Keyword::From))
        }),
    ensures
        spec_group_items(t, pos, items) == (Ok::<Seq<Expr<'a>>, ParserError>(items), pos),
{
}

} // verus!
