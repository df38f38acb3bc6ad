use vstd::prelude::*;

verus! {

/// The error reported by every parser of this crate.
///
/// `SyntaxError(start, end)` carries the token positions at which the parser
/// gave up; the parsers of this crate report the same position twice.
#[derive(Debug, Clone, PartialEq, Eq, Structural)]
pub enum ParserError {
    SyntaxError(usize, usize),
}

/// The syntax error reported at token position `pos`.
pub open spec fn syntax_error(pos: int) -> ParserError {
    ParserError::SyntaxError(pos as usize, pos as usize)
}

/// A parse result with its value taken by its view.
pub open spec fn view_result<T: View>(r: Result<T, ParserError>) -> Result<T::V, ParserError> {
    match r {
        Ok(v) => Ok(v@),
        Err(e) => Err(e),
    }
}

} // verus!
