use vstd::prelude::*;

use crate::error::{syntax_error, ParserError};
use crate::token::{TokenKind, TokenTable};

verus! {

/// Succeeds when the token at `cursor` has kind `kind`; the cursor does not move.
pub fn expect_kind<'a>(token_table: &TokenTable<'a>, cursor: &usize, kind: &TokenKind) -> (r: Result<(), ParserError>)
    ensures
        r == (if token_table.is_kind(*cursor as int, *kind) {
            Ok::<(), ParserError>(())
        } else {
            Err(syntax_error(*cursor as int))
        }),
{
    match token_table.get_kind(*cursor) {
        Some(k) => {
            if *k == *kind {
                Ok(())
            } else {
                Err(ParserError::SyntaxError(*cursor, *cursor))
            }
        },
        None => Err(ParserError::SyntaxError(*cursor, *cursor)),
    }
}

/// Whether the token at `cursor` has kind `kind`.
pub fn maybe_kind<'a>(token_table: &TokenTable<'a>, cursor: &usize, kind: &TokenKind) -> (r: bool)
    ensures
        r == token_table.is_kind(*cursor as int, *kind),
{
    match token_table.get_kind(*cursor) {
        Some(k) => *k == *kind,
        None => false,
    }
}

} // verus!
