# sql_ast

A recursive-descent parser for a subset of SQL, verified with Verus. It reads a
table of lexed tokens (`token::TokenTable`: the kind of each token and the
source slice it covers) and builds syntax trees.

Every parser is specified by a spec function of the same name with a `spec_`
prefix, which states the result and the token position after it; the
executable parser is proved to compute exactly that. Every parser stays
inside the table; one that parses a whole construct (a statement, a table, an
expression) takes at least one token when it succeeds, while one for a part
that may be absent, such as the joins after a table, may take none. Every
refusal is `SyntaxError(p, p)` with `p` the position where the cursor stopped.

Layout of `src/`:

- `token.rs`, `keyword.rs`, `error.rs`: tokens, keywords (with a
  case-insensitive keyword recogniser built on `aho-corasick`), errors.
- `common/pratt.rs`: a generic Pratt parser; `common/expr.rs` instantiates it
  for expressions and proves that results respect operator precedence.
- `common/`: aliases, `FROM` clauses and joins, `GROUP BY`, `LIMIT`.
- `ast/`: `SELECT`, queries with `WITH`, `INSERT`, `UPDATE`, `DELETE`,
  `CREATE`/`DROP`/`ALTER TABLE`, and scripts of statements.
- `lists.rs`: the `minivec` vectors used by some trees, behind wrappers.

`app/` holds what the verified library cannot: serialisable copies of the
trees (`serde`) and `Display` adapters.
