use vstd::prelude::*;

use crate::keyword::Keyword;

verus! {

/// The kind of a lexed token.
#[derive(Debug, Clone, PartialEq, Eq, Structural)]
pub enum TokenKind {
    Number,
    StringLiteral,
    Identifier,
    Delimiter,
    Dot,
    LeftParen,
    RightParen,
    LeftShift,
    RightShift,
    Comma,
    Unknown,
    Less,
    LessEqual,
    Greater,
    GreaterEqual,
    Equal,
    NotEqual,
    Plus,
    Subtract,
    Multiply,
    Divide,
    Mod,
    BitXor,
    BitAnd,
    Or,
    Keyword(Keyword),
}

/// The lexed tokens of a source text: the kind of each token, and beside it
/// the slice of the source that the token covers.
#[derive(Debug)]
pub struct TokenTable<'a> {
    pub tokens: Vec<TokenKind>,
    pub source_ref_list: Vec<&'a str>,
}

impl<'a> TokenTable<'a> {
    /// Every token has its source slice.
    pub open spec fn wf(&self) -> bool {
        self.tokens.len() <= self.source_ref_list.len()
    }

    /// The number of tokens.
    pub open spec fn num_tokens(&self) -> int {
        self.tokens@.len() as int
    }

    /// The kind of the token at `pos`, `None` past the end (or before the start).
    pub open spec fn kind(&self, pos: int) -> Option<TokenKind> {
        if 0 <= pos < self.tokens@.len() {
            Some(self.tokens@[pos])
        } else {
            None
        }
    }

    /// Whether the token at `pos` exists and has kind `k`.
    pub open spec fn is_kind(&self, pos: int, k: TokenKind) -> bool {
        self.kind(pos) == Some(k)
    }

    /// The source slice of the token at `pos`.
    pub open spec fn src(&self, pos: int) -> &'a str {
        self.source_ref_list@[pos]
    }

    /// An empty table for a source text.
    pub fn with_source(source: &'a str) -> (r: Self)
        ensures
            r.tokens@ == Seq::<TokenKind>::empty(),
            r.source_ref_list@ == Seq::<&'a str>::empty(),
    {
        let cap = source.len() / 4;
        Self { tokens: Vec::with_capacity(cap), source_ref_list: Vec::with_capacity(cap) }
    }

    /// Appends a token and its source slice.
    pub fn push(&mut self, kind: TokenKind, source_ref: &'a str)
        ensures
            final(self).tokens@ == old(self).tokens@.push(kind),
            final(self).source_ref_list@ == old(self).source_ref_list@.push(source_ref),
    {
        self.tokens.push(kind);
        self.source_ref_list.push(source_ref);
    }

    /// The source slice of the token at `cursor`.
    pub fn source_at(&self, cursor: usize) -> (r: &'a str)
        requires
            cursor < self.source_ref_list@.len(),
        ensures
            r == self.src(cursor as int),
    {
        self.source_ref_list[cursor]
    }

    /// The kind of the token at `index`, or `None` past the end.
    pub fn get_kind(&self, index: usize) -> (r: Option<&TokenKind>)
        ensures
            match r {
                Some(k) => self.kind(index as int) == Some(*k),
                None => self.kind(index as int) is None,
            },
    {
        if index < self.tokens.len() {
            Some(&self.tokens[index])
        } else {
            None
        }
    }
}

/// What a read gives back of a write: after a push, the new last token has
/// the pushed kind and source slice, and every earlier token is unchanged.
pub proof fn law_push_then_read<'a>(before: TokenTable<'a>, after: TokenTable<'a>, kind: TokenKind, source_ref: &'a str)
    requires
        before.tokens@.len() == before.source_ref_list@.len(),
        after.tokens@ == before.tokens@.push(kind),
        after.source_ref_list@ == before.source_ref_list@.push(source_ref),
    ensures
        after.kind(before.num_tokens()) == Some(kind),
        after.src(before.num_tokens()) == source_ref,
        forall|i: int| 0 <= i < before.num_tokens() ==> #[trigger] after.kind(i) == before.kind(i) && after.src(i) == before.src(i),
        after.kind(before.num_tokens() + 1) is None,
{
}

} // verus!
