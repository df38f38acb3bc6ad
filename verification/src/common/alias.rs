//! A value with an optional alias: `value [AS] name`.

use vstd::prelude::*;

use crate::error::{syntax_error, view_result, ParserError};
use crate::keyword::Keyword;
use crate::token::{TokenKind, TokenTable};

verus! {

/// A value that may carry an alias; it says how the value itself is parsed.
pub trait Aliasable<'a>: Sized + View {
    /// The value parsed at `pos`, with the position after it.
    spec fn spec_aliasable(t: TokenTable<'a>, pos: int) -> (Result<Self::V, ParserError>, int);

    fn aliasable(token_table: &TokenTable<'a>, cursor: &mut usize) -> (r: Result<Self, ParserError>)
        requires
            token_table.wf(),
        ensures
            (view_result(r), *final(cursor) as int) == Self::spec_aliasable(
                *token_table,
                *old(cursor) as int,
            ),
            r is Ok ==> *old(cursor) < *final(cursor) <= token_table.tokens@.len(),
            r matches Err(e) ==> e == syntax_error(*final(cursor) as int),
    ;
}

/// A value and its alias, if it has one.
#[derive(Debug, PartialEq)]
pub struct Alias<'a, T> {
    pub name: Option<&'a str>,
    pub value: T,
}

impl<'a, T: View> View for Alias<'a, T> {
    type V = Alias<'a, T::V>;

    open spec fn view(&self) -> Alias<'a, T::V> {
        Alias { name: self.name, value: self.value@ }
    }
}

/// The alias after a value, read at `pos`: `AS name`, a bare `name`, or none.
pub open spec fn spec_alias_name<'a>(t: TokenTable<'a>, pos: int) -> (Result<Option<&'a str>, ParserError>, int) {
    if t.is_kind(pos, TokenKind::Keyword(Keyword::As)) {
        if t.is_kind(pos + 1, TokenKind::Identifier) {
            (Ok(Some(t.src(pos + 1))), pos + 2)
        } else {
            (Err(syntax_error(pos + 1)), pos + 1)
        }
    } else if t.is_kind(pos, TokenKind::Identifier) {
        (Ok(Some(t.src(pos))), pos + 1)
    } else {
        (Ok(None), pos)
    }
}

/// Reads the alias after a value (see [`spec_alias_name`]).
pub fn parse_alias_name<'a>(token_table: &TokenTable<'a>, cursor: &mut usize) -> (r: Result<
    Option<&'a str>,
    ParserError,
>)
    requires
        token_table.wf(),
    ensures
        (r, *final(cursor) as int) == spec_alias_name(*token_table, *old(cursor) as int),
        *old(cursor) <= *final(cursor),
        r matches Err(e) ==> e == syntax_error(*final(cursor) as int),
        *old(cursor) <= token_table.tokens@.len() ==> *final(cursor) <= token_table.tokens@.len(),
{
    match token_table.get_kind(*cursor) {
        Some(TokenKind::Keyword(Keyword::As)) => {
            *cursor += 1;
            match token_table.get_kind(*cursor) {
                Some(TokenKind::Identifier) => {
                    let name = token_table.source_at(*cursor);
                    *cursor += 1;
                    Ok(Some(name))
                },
                _ => Err(ParserError::SyntaxError(*cursor, *cursor)),
            }
        },
        Some(TokenKind::Identifier) => {
            let name = token_table.source_at(*cursor);
            *cursor += 1;
            Ok(Some(name))
        },
        _ => Ok(None),
    }
}

/// A value of type `T` followed by its optional alias.
pub open spec fn spec_alias<'a, T: Aliasable<'a>>(t: TokenTable<'a>, pos: int) -> (Result<Alias<'a, T::V>, ParserError>, int) {
    let (r, p) = T::spec_aliasable(t, pos);
    match r {
        Err(e) => (Err(e), p),
        Ok(value) => {
            let (n, q) = spec_alias_name(t, p);
            match n {
                Err(e) => (Err(e), q),
                Ok(name) => (Ok(Alias { name, value }), q),
            }
        },
    }
}

impl<'a, T: Aliasable<'a>> Alias<'a, T> {
    /// Parses a value of type `T` and its optional alias.
    pub fn new(token_table: &TokenTable<'a>, cursor: &mut usize) -> (r: Result<Self, ParserError>)
        requires
            token_table.wf(),
        ensures
            (view_result(r), *final(cursor) as int) == spec_alias::<'a, T>(
                *token_table,
                *old(cursor) as int,
            ),
            r is Ok ==> *old(cursor) < *final(cursor) <= token_table.tokens@.len(),
            r matches Err(e) ==> e == syntax_error(*final(cursor) as int),
    {
        let value = T::aliasable(token_table, cursor)?;
        let name = parse_alias_name(token_table, cursor)?;
        Ok(Alias { name, value })
    }
}

/// `AS` is optional: an alias written `AS name` and one written `name`, with
/// the same source text, are read alike, and reading ends right after the
/// name.
pub proof fn law_as_is_optional<'a>(t1: TokenTable<'a>, p1: int, t2: TokenTable<'a>, p2: int)
    requires
        t1.is_kind(p1, TokenKind::Keyword(Keyword::As)),
        t1.is_kind(p1 + 1, TokenKind::Identifier),
        t2.is_kind(p2, TokenKind::Identifier),
        t1.src(p1 + 1) == t2.src(p2),
    ensures
        spec_alias_name(t1, p1).0 == spec_alias_name(t2, p2).0,
        spec_alias_name(t1, p1).0 == Ok::<Option<&'a str>, ParserError>(Some(t2.src(p2))),
        spec_alias_name(t1, p1).1 == p1 + 2,
        spec_alias_name(t2, p2).1 == p2 + 1,
{
}

} // verus!
