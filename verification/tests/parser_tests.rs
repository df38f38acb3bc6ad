use sql_ast::ast::ddl::{AlterTable, AlterTableOperation, ColumnConstraint, ColumnDef, CreateTable, DdlStatement, DropTable};
use sql_ast::ast::delete::DeleteStatement;
use sql_ast::ast::insert::InsertStatement;
use sql_ast::ast::query::Query;
use sql_ast::ast::select::SelectStatement;
use sql_ast::ast::statement::{Statement, StatementInner};
use sql_ast::ast::update::UpdateStatement;
use sql_ast::common::alias::Alias;
use sql_ast::common::expr::{BinaryOp, BinaryOperator, Expr, ExprBuild, Field, InfixOps, PrefixOps, PrimaryExpr, UnaryOp, UnaryOperator};
use sql_ast::common::from::{From, JoinType, Table};
use sql_ast::common::group::Group;
use sql_ast::common::limit::Limit;
use sql_ast::common::pratt::{OpParser, PrattParser};
use sql_ast::error::ParserError;
use sql_ast::keyword::{Keyword, KeywordMap};
use sql_ast::token::{TokenKind, TokenTable};


fn kw(k: Keyword) -> TokenKind {
    TokenKind::Keyword(k)
}

/// A token table whose source slices are the given texts.
fn toks(items: Vec<(TokenKind, &'static str)>) -> TokenTable<'static> {
    let mut table = TokenTable::with_source("");
    for (kind, text) in items {
        table.push(kind, text);
    }
    table
}

fn field(name: &'static str) -> Expr<'static> {
    Expr::Field(Field { prefix: None, name })
}

fn bin(op: BinaryOperator, left: Expr<'static>, right: Expr<'static>) -> Expr<'static> {
    Expr::BinaryOp(Box::new(BinaryOp { op, left, right }))
}

fn table(name: &'static str) -> From<'static> {
    From::Table(Table::Name(Alias { name: None, value: field(name) }))
}

#[test]
fn token_table_reads_back_pushes() {
    let mut t = TokenTable::with_source("a b");
    t.push(TokenKind::Identifier, "a");
    t.push(TokenKind::Comma, ",");
    assert_eq!(t.get_kind(0), Some(&TokenKind::Identifier));
    assert_eq!(t.get_kind(1), Some(&TokenKind::Comma));
    assert_eq!(t.get_kind(2), None);
    assert_eq!(t.source_at(0), "a");
    assert_eq!(t.source_at(1), ",");
}

#[test]
fn multiplication_binds_tighter_than_addition() {
    let t = toks(vec![(TokenKind::Identifier, "a"), (TokenKind::Plus, "+"), (TokenKind::Identifier, "b"), (TokenKind::Multiply, "*"), (TokenKind::Identifier, "c")]);
    let mut cursor = 0;
    let e = Expr::build(&t, &mut cursor).unwrap();
    assert_eq!(cursor, 5);
    assert_eq!(e, bin(BinaryOperator::Plus, field("a"), bin(BinaryOperator::Multiply, field("b"), field("c"))));

    let t = toks(vec![(TokenKind::Identifier, "a"), (TokenKind::Multiply, "*"), (TokenKind::Identifier, "b"), (TokenKind::Plus, "+"), (TokenKind::Identifier, "c")]);
    let mut cursor = 0;
    let e = Expr::build(&t, &mut cursor).unwrap();
    assert_eq!(e, bin(BinaryOperator::Plus, bin(BinaryOperator::Multiply, field("a"), field("b")), field("c")));
}

#[test]
fn equal_precedence_groups_left() {
    let t = toks(vec![(TokenKind::Identifier, "a"), (TokenKind::Subtract, "-"), (TokenKind::Identifier, "b"), (TokenKind::Subtract, "-"), (TokenKind::Identifier, "c")]);
    let mut cursor = 0;
    let e = Expr::build(&t, &mut cursor).unwrap();
    assert_eq!(e, bin(BinaryOperator::Subtract, bin(BinaryOperator::Subtract, field("a"), field("b")), field("c")));
}

#[test]
fn and_binds_tighter_than_or_and_comparisons_tighter_than_and() {
    let t = toks(vec![
        (TokenKind::Identifier, "a"),
        (TokenKind::Equal, "="),
        (TokenKind::Number, "1"),
        (kw(Keyword::Or), "OR"),
        (TokenKind::Identifier, "b"),
        (kw(Keyword::And), "AND"),
        (TokenKind::Identifier, "c"),
        (TokenKind::Less, "<"),
        (TokenKind::Number, "2"),
    ]);
    let mut cursor = 0;
    let e = Expr::build(&t, &mut cursor).unwrap();
    assert_eq!(
        e,
        bin(
            BinaryOperator::Or,
            bin(BinaryOperator::Equal, field("a"), Expr::Number("1")),
            bin(BinaryOperator::And, field("b"), bin(BinaryOperator::Less, field("c"), Expr::Number("2"))),
        )
    );
}

#[test]
fn prefix_operators_apply_to_the_operand() {
    let t = toks(vec![(kw(Keyword::Not), "NOT"), (TokenKind::Identifier, "a"), (kw(Keyword::And), "AND"), (TokenKind::Subtract, "-"), (TokenKind::Number, "1")]);
    let mut cursor = 0;
    let e = Expr::build(&t, &mut cursor).unwrap();
    assert_eq!(
        e,
        bin(
            BinaryOperator::And,
            Expr::UnaryOp(Box::new(UnaryOp { op: UnaryOperator::Not, operand: field("a") })),
            Expr::UnaryOp(Box::new(UnaryOp { op: UnaryOperator::Minus, operand: Expr::Number("1") })),
        )
    );
}

#[test]
fn literals_and_wildcard() {
    let cases: Vec<(TokenKind, &'static str, Expr<'static>)> = vec![
        (TokenKind::Number, "42", Expr::Number("42")),
        (TokenKind::StringLiteral, "'x'", Expr::Text("'x'")),
        (kw(Keyword::Null), "NULL", Expr::Null),
        (kw(Keyword::True), "TRUE", Expr::Boolean(true)),
        (kw(Keyword::False), "FALSE", Expr::Boolean(false)),
        (TokenKind::Multiply, "*", Expr::Wildcard),
    ];
    for (kind, text, expected) in cases {
        let t = toks(vec![(kind, text)]);
        let mut cursor = 0;
        assert_eq!(Expr::build(&t, &mut cursor).unwrap(), expected);
        assert_eq!(cursor, 1);
    }
}

#[test]
fn expression_errors_report_their_position() {
    let t = toks(vec![(TokenKind::RightParen, ")")]);
    let mut cursor = 0;
    assert_eq!(Expr::build(&t, &mut cursor), Err(ParserError::SyntaxError(0, 0)));
    assert_eq!(cursor, 0);

    let t = toks(vec![(TokenKind::Identifier, "a"), (TokenKind::Plus, "+")]);
    let mut cursor = 0;
    assert_eq!(Expr::build(&t, &mut cursor), Err(ParserError::SyntaxError(2, 2)));
    assert_eq!(cursor, 2);

    let t = toks(vec![(TokenKind::Identifier, "users"), (TokenKind::Dot, "."), (TokenKind::Number, "1")]);
    let mut cursor = 0;
    assert_eq!(Expr::class_field(&t, &mut cursor), Err(ParserError::SyntaxError(2, 2)));
}

#[test]
fn pratt_parser_used_directly() {
    let t = toks(vec![(TokenKind::Number, "1"), (TokenKind::Plus, "+"), (TokenKind::Number, "2")]);
    let parser = PrattParser::<Expr, BinaryOperator, UnaryOperator>::new();
    let mut cursor = 0;
    let e = parser.parse_expression::<PrimaryExpr, InfixOps, PrefixOps, ExprBuild>(&t, &mut cursor).unwrap();
    assert_eq!(e, bin(BinaryOperator::Plus, Expr::Number("1"), Expr::Number("2")));
    assert_eq!(cursor, 3);
}

#[test]
fn alias_with_and_without_as() {
    let t1 = toks(vec![(TokenKind::Identifier, "users"), (kw(Keyword::As), "AS"), (TokenKind::Identifier, "u")]);
    let t2 = toks(vec![(TokenKind::Identifier, "users"), (TokenKind::Identifier, "u")]);
    let (mut c1, mut c2) = (0, 0);
    let a1 = Alias::<Expr>::new(&t1, &mut c1).unwrap();
    let a2 = Alias::<Expr>::new(&t2, &mut c2).unwrap();
    assert_eq!(a1, a2);
    assert_eq!(a1, Alias { name: Some("u"), value: field("users") });
    assert_eq!((c1, c2), (3, 2));

    let t3 = toks(vec![(TokenKind::Identifier, "users"), (kw(Keyword::As), "AS"), (TokenKind::Number, "1")]);
    let mut c3 = 0;
    assert_eq!(Alias::<Expr>::new(&t3, &mut c3), Err(ParserError::SyntaxError(2, 2)));
}

#[test]
fn limit_forms() {
    let t = toks(vec![(kw(Keyword::Limit), "LIMIT"), (TokenKind::Number, "5"), (TokenKind::Comma, ","), (TokenKind::Number, "10")]);
    let mut cursor = 0;
    let comma_form = Limit::new(&t, &mut cursor).unwrap();
    assert_eq!(cursor, 4);
    let t = toks(vec![(kw(Keyword::Limit), "LIMIT"), (TokenKind::Number, "10"), (kw(Keyword::Offset), "OFFSET"), (TokenKind::Number, "5")]);
    let mut cursor = 0;
    let offset_form = Limit::new(&t, &mut cursor).unwrap();
    assert_eq!(cursor, 4);
    assert_eq!(comma_form, offset_form);
    assert_eq!(comma_form, Limit { offset: Some(Expr::Number("5")), limit: Expr::Number("10") });

    let t = toks(vec![(kw(Keyword::Limit), "LIMIT"), (TokenKind::Number, "7")]);
    let mut cursor = 0;
    assert_eq!(Limit::new(&t, &mut cursor).unwrap(), Limit { offset: None, limit: Expr::Number("7") });

    let t = toks(vec![(kw(Keyword::Limit), "LIMIT"), (TokenKind::Identifier, "n")]);
    let mut cursor = 0;
    assert_eq!(Limit::new(&t, &mut cursor), Err(ParserError::SyntaxError(1, 1)));

    let t = toks(vec![(kw(Keyword::Limit), "LIMIT"), (TokenKind::Number, "1"), (TokenKind::Plus, "+"), (TokenKind::Number, "2")]);
    let mut cursor = 0;
    assert_eq!(Limit::new(&t, &mut cursor), Err(ParserError::SyntaxError(1, 1)));

    let t = toks(vec![(TokenKind::Number, "1")]);
    let mut cursor = 0;
    assert_eq!(Limit::new(&t, &mut cursor), Err(ParserError::SyntaxError(0, 0)));
}

#[test]
fn group_by_lists_expressions_until_a_clause_keyword() {
    let t = toks(vec![
        (kw(Keyword::Group), "GROUP"),
        (kw(Keyword::By), "BY"),
        (TokenKind::Identifier, "a"),
        (TokenKind::Comma, ","),
        (TokenKind::Identifier, "b"),
        (kw(Keyword::Having), "HAVING"),
    ]);
    let mut cursor = 0;
    let g = Group::build(&t, &mut cursor).unwrap();
    assert_eq!(cursor, 5);
    assert_eq!(g.columns.len(), 2);
    assert_eq!(g.columns[0], field("a"));
    assert_eq!(g.columns[1], field("b"));

    let t = toks(vec![(kw(Keyword::Group), "GROUP"), (TokenKind::Identifier, "a")]);
    let mut cursor = 0;
    assert_eq!(Group::build(&t, &mut cursor).map(|_| ()), Err(ParserError::SyntaxError(1, 1)));
}

#[test]
fn outer_and_inner_are_optional() {
    let t1 = toks(vec![(TokenKind::Identifier, "a"), (kw(Keyword::Left), "LEFT"), (kw(Keyword::Outer), "OUTER"), (kw(Keyword::Join), "JOIN"), (TokenKind::Identifier, "b"), (kw(Keyword::Using), "USING"), (TokenKind::LeftParen, "("), (TokenKind::Identifier, "id"), (TokenKind::RightParen, ")")]);
    let t2 = toks(vec![(TokenKind::Identifier, "a"), (kw(Keyword::Left), "LEFT"), (kw(Keyword::Join), "JOIN"), (TokenKind::Identifier, "b"), (kw(Keyword::Using), "USING"), (TokenKind::LeftParen, "("), (TokenKind::Identifier, "id"), (TokenKind::RightParen, ")")]);
    let (mut c1, mut c2) = (0, 0);
    let f1 = From::parse(&t1, &mut c1).unwrap();
    let f2 = From::parse(&t2, &mut c2).unwrap();
    assert_eq!(f1, f2);
    assert_eq!((c1, c2), (9, 8));

    let t3 = toks(vec![(TokenKind::Identifier, "a"), (kw(Keyword::Inner), "INNER"), (kw(Keyword::Join), "JOIN"), (TokenKind::Identifier, "b"), (kw(Keyword::On), "ON"), (TokenKind::Identifier, "x")]);
    let mut c3 = 0;
    assert_eq!(
        From::parse(&t3, &mut c3).unwrap(),
        From::InnerJoin { left: Box::new(table("a")), right: Box::new(table("b")), condition: field("x") }
    );
}

#[test]
fn join_errors() {
    // NATURAL CROSS JOIN is refused at CROSS.
    let t = toks(vec![(TokenKind::Identifier, "a"), (kw(Keyword::Natural), "NATURAL"), (kw(Keyword::Cross), "CROSS"), (kw(Keyword::Join), "JOIN"), (TokenKind::Identifier, "b")]);
    let mut c = 0;
    assert_eq!(From::parse(&t, &mut c), Err(ParserError::SyntaxError(2, 2)));
    // NATURAL with no join keyword.
    let t = toks(vec![(TokenKind::Identifier, "a"), (kw(Keyword::Natural), "NATURAL")]);
    let mut c = 0;
    assert_eq!(From::parse(&t, &mut c), Err(ParserError::SyntaxError(2, 2)));
    // A join with neither ON nor USING.
    let t = toks(vec![(TokenKind::Identifier, "a"), (kw(Keyword::Join), "JOIN"), (TokenKind::Identifier, "b")]);
    let mut c = 0;
    assert_eq!(From::parse(&t, &mut c), Err(ParserError::SyntaxError(3, 3)));
    assert_eq!(c, 3);
    // LEFT not followed by JOIN.
    let t = toks(vec![(TokenKind::Identifier, "a"), (kw(Keyword::Left), "LEFT"), (TokenKind::Identifier, "b")]);
    let mut c = 0;
    assert_eq!(From::parse(&t, &mut c), Err(ParserError::SyntaxError(2, 2)));
}

#[test]
fn cross_join_chain_nests_to_the_right() {
    let t = toks(vec![
        (TokenKind::Identifier, "a"),
        (kw(Keyword::Cross), "CROSS"),
        (kw(Keyword::Join), "JOIN"),
        (TokenKind::Identifier, "b"),
        (kw(Keyword::Cross), "CROSS"),
        (kw(Keyword::Join), "JOIN"),
        (TokenKind::Identifier, "c"),
    ]);
    let mut c = 0;
    assert_eq!(
        From::parse(&t, &mut c).unwrap(),
        From::CrossJoin {
            left: Box::new(table("a")),
            right: Box::new(From::CrossJoin { left: Box::new(table("b")), right: Box::new(table("c")) }),
        }
    );
    assert_eq!(c, 7);
}

fn select_a_from(name: &'static str) -> SelectStatement<'static> {
    SelectStatement {
        distinct: false,
        columns: vec![Alias { name: None, value: field("a") }],
        from: Some(table(name)),
        conditions: None,
        group: None,
        having: None,
        limit: None,
    }
}

#[test]
fn select_with_every_clause() {
    let t = toks(vec![
        (kw(Keyword::Select), "SELECT"),
        (kw(Keyword::Distinct), "DISTINCT"),
        (TokenKind::Identifier, "a"),
        (TokenKind::Comma, ","),
        (TokenKind::Identifier, "b"),
        (kw(Keyword::As), "AS"),
        (TokenKind::Identifier, "c"),
        (kw(Keyword::From), "FROM"),
        (TokenKind::Identifier, "t"),
        (kw(Keyword::Where), "WHERE"),
        (TokenKind::Identifier, "x"),
        (TokenKind::Equal, "="),
        (TokenKind::Number, "1"),
        (kw(Keyword::Group), "GROUP"),
        (kw(Keyword::By), "BY"),
        (TokenKind::Identifier, "a"),
        (kw(Keyword::Having), "HAVING"),
        (TokenKind::Identifier, "a"),
        (TokenKind::Greater, ">"),
        (TokenKind::Number, "2"),
        (kw(Keyword::Limit), "LIMIT"),
        (TokenKind::Number, "3"),
    ]);
    let mut c = 0;
    let s = SelectStatement::new(&t, &mut c).unwrap();
    assert_eq!(c, 22);
    assert!(s.distinct);
    assert_eq!(s.columns, vec![Alias { name: None, value: field("a") }, Alias { name: Some("c"), value: field("b") }]);
    assert_eq!(s.from, Some(table("t")));
    assert_eq!(s.conditions, Some(bin(BinaryOperator::Equal, field("x"), Expr::Number("1"))));
    assert_eq!(s.group.as_ref().map(|g| g.columns.len()), Some(1));
    assert_eq!(s.having, Some(bin(BinaryOperator::Greater, field("a"), Expr::Number("2"))));
    assert_eq!(s.limit, Some(Limit { offset: None, limit: Expr::Number("3") }));
}

#[test]
fn subquery_in_from_with_alias() {
    let t = toks(vec![
        (TokenKind::LeftParen, "("),
        (kw(Keyword::Select), "SELECT"),
        (TokenKind::Identifier, "a"),
        (kw(Keyword::From), "FROM"),
        (TokenKind::Identifier, "t"),
        (TokenKind::RightParen, ")"),
        (TokenKind::Identifier, "s"),
    ]);
    let mut c = 0;
    let f = From::parse(&t, &mut c).unwrap();
    assert_eq!(c, 7);
    match f {
        From::Table(Table::SubQuery(alias)) => {
            assert_eq!(alias.name, Some("s"));
            assert_eq!(*alias.value.select, select_a_from("t"));
        },
        other => panic!("unexpected {:?}", other),
    }

    let t = toks(vec![(TokenKind::LeftParen, "("), (kw(Keyword::Select), "SELECT"), (TokenKind::Identifier, "a")]);
    let mut c = 0;
    assert_eq!(From::parse(&t, &mut c).map(|_| ()), Err(ParserError::SyntaxError(3, 3)));
}

#[test]
fn create_table_with_columns() {
    let t = toks(vec![
        (kw(Keyword::Create), "CREATE"),
        (kw(Keyword::Table), "TABLE"),
        (kw(Keyword::If), "IF"),
        (kw(Keyword::Not), "NOT"),
        (kw(Keyword::Exists), "EXISTS"),
        (TokenKind::Identifier, "users"),
        (TokenKind::LeftParen, "("),
        (TokenKind::Identifier, "id"),
        (TokenKind::Identifier, "INT"),
        (kw(Keyword::Primary), "PRIMARY"),
        (kw(Keyword::Key), "KEY"),
        (TokenKind::Comma, ","),
        (TokenKind::Identifier, "name"),
        (TokenKind::Identifier, "VARCHAR"),
        (TokenKind::LeftParen, "("),
        (TokenKind::Number, "100"),
        (TokenKind::RightParen, ")"),
        (kw(Keyword::Not), "NOT"),
        (kw(Keyword::Null), "NULL"),
        (kw(Keyword::Default), "DEFAULT"),
        (TokenKind::StringLiteral, "'x'"),
        (kw(Keyword::Unique), "UNIQUE"),
        (TokenKind::RightParen, ")"),
    ]);
    let mut c = 0;
    let d = DdlStatement::build(&t, &mut c).unwrap();
    assert_eq!(c, 23);
    assert_eq!(
        d,
        DdlStatement::CreateTable(CreateTable::Table {
            if_not_exists: true,
            name: "users",
            columns: vec![
                ColumnDef {
                    name: "id",
                    col_type: "INT",
                    col_type_params: None,
                    constraint: ColumnConstraint { not_null: false, default: None, primary_key: true, unique: false },
                },
                ColumnDef {
                    name: "name",
                    col_type: "VARCHAR",
                    col_type_params: Some(""),
                    constraint: ColumnConstraint { not_null: true, default: Some("'x'"), primary_key: false, unique: true },
                },
            ],
        })
    );
}

#[test]
fn create_table_as_select() {
    let t = toks(vec![
        (kw(Keyword::Create), "CREATE"),
        (kw(Keyword::Table), "TABLE"),
        (TokenKind::Identifier, "copy"),
        (kw(Keyword::As), "AS"),
        (kw(Keyword::Select), "SELECT"),
        (TokenKind::Identifier, "a"),
        (kw(Keyword::From), "FROM"),
        (TokenKind::Identifier, "t"),
    ]);
    let mut c = 0;
    assert_eq!(
        DdlStatement::build(&t, &mut c).unwrap(),
        DdlStatement::CreateTable(CreateTable::AsSelect { name: "copy", columns: None, select: Box::new(select_a_from("t")) })
    );

    let t = toks(vec![(kw(Keyword::Create), "CREATE"), (kw(Keyword::Table), "TABLE"), (TokenKind::Identifier, "x"), (kw(Keyword::As), "AS"), (TokenKind::Identifier, "y")]);
    let mut c = 0;
    assert_eq!(DdlStatement::build(&t, &mut c), Err(ParserError::SyntaxError(4, 4)));
}

#[test]
fn create_table_errors() {
    let t = toks(vec![(kw(Keyword::Create), "CREATE"), (TokenKind::Identifier, "x")]);
    let mut c = 0;
    assert_eq!(DdlStatement::build(&t, &mut c), Err(ParserError::SyntaxError(1, 1)));

    let t = toks(vec![(kw(Keyword::Create), "CREATE"), (kw(Keyword::Table), "TABLE"), (TokenKind::Identifier, "t"), (TokenKind::LeftParen, "("), (TokenKind::Identifier, "a"), (TokenKind::Identifier, "CHAR"), (TokenKind::LeftParen, "("), (TokenKind::Number, "1")]);
    let mut c = 0;
    assert_eq!(DdlStatement::build(&t, &mut c), Err(ParserError::SyntaxError(8, 8)));

    let t = toks(vec![(kw(Keyword::Create), "CREATE"), (kw(Keyword::Table), "TABLE"), (TokenKind::Identifier, "t"), (TokenKind::LeftParen, "("), (TokenKind::Number, "1")]);
    let mut c = 0;
    assert_eq!(DdlStatement::build(&t, &mut c), Err(ParserError::SyntaxError(4, 4)));

    let t = toks(vec![(kw(Keyword::Create), "CREATE"), (kw(Keyword::Table), "TABLE"), (TokenKind::Identifier, "t"), (TokenKind::LeftParen, "("), (TokenKind::Identifier, "a"), (TokenKind::Identifier, "INT"), (kw(Keyword::Default), "DEFAULT"), (TokenKind::Comma, ",")]);
    let mut c = 0;
    assert_eq!(DdlStatement::build(&t, &mut c), Err(ParserError::SyntaxError(7, 7)));
}

#[test]
fn drop_table_forms() {
    let t = toks(vec![
        (kw(Keyword::Drop), "DROP"),
        (kw(Keyword::Table), "TABLE"),
        (kw(Keyword::If), "IF"),
        (kw(Keyword::Exists), "EXISTS"),
        (TokenKind::Identifier, "a"),
        (TokenKind::Comma, ","),
        (TokenKind::Identifier, "b"),
        (kw(Keyword::Cascade), "CASCADE"),
    ]);
    let mut c = 0;
    assert_eq!(
        DdlStatement::build(&t, &mut c).unwrap(),
        DdlStatement::DropTable(DropTable { if_exists: true, names: vec!["a", "b"], cascade: true })
    );
    assert_eq!(c, 8);

    let t = toks(vec![(kw(Keyword::Drop), "DROP"), (kw(Keyword::Table), "TABLE"), (TokenKind::Identifier, "a"), (kw(Keyword::Restrict), "RESTRICT")]);
    let mut c = 0;
    assert_eq!(
        DdlStatement::build(&t, &mut c).unwrap(),
        DdlStatement::DropTable(DropTable { if_exists: false, names: vec!["a"], cascade: false })
    );
    assert_eq!(c, 4);

    let t = toks(vec![(kw(Keyword::Drop), "DROP"), (kw(Keyword::Table), "TABLE"), (kw(Keyword::Cascade), "CASCADE")]);
    let mut c = 0;
    assert_eq!(DdlStatement::build(&t, &mut c), Err(ParserError::SyntaxError(2, 2)));
}

#[test]
fn alter_table_operations() {
    let add = toks(vec![
        (kw(Keyword::Alter), "ALTER"),
        (kw(Keyword::Table), "TABLE"),
        (TokenKind::Identifier, "t"),
        (kw(Keyword::Add), "ADD"),
        (kw(Keyword::Column), "COLUMN"),
        (TokenKind::Identifier, "c"),
        (TokenKind::Identifier, "INT"),
    ]);
    let mut c = 0;
    assert_eq!(
        DdlStatement::build(&add, &mut c).unwrap(),
        DdlStatement::AlterTable(AlterTable {
            name: "t",
            operation: AlterTableOperation::AddColumn {
                column: ColumnDef {
                    name: "c",
                    col_type: "INT",
                    col_type_params: None,
                    constraint: ColumnConstraint { not_null: false, default: None, primary_key: false, unique: false },
                },
            },
        })
    );

    let drop = toks(vec![(kw(Keyword::Alter), "ALTER"), (kw(Keyword::Table), "TABLE"), (TokenKind::Identifier, "t"), (kw(Keyword::Drop), "DROP"), (TokenKind::Identifier, "c"), (kw(Keyword::Cascade), "CASCADE")]);
    let mut c = 0;
    assert_eq!(
        DdlStatement::build(&drop, &mut c).unwrap(),
        DdlStatement::AlterTable(AlterTable { name: "t", operation: AlterTableOperation::DropColumn { name: "c", cascade: true } })
    );

    let rename = toks(vec![(kw(Keyword::Alter), "ALTER"), (kw(Keyword::Table), "TABLE"), (TokenKind::Identifier, "t"), (kw(Keyword::Rename), "RENAME"), (kw(Keyword::To), "TO"), (TokenKind::Identifier, "u")]);
    let mut c = 0;
    assert_eq!(
        DdlStatement::build(&rename, &mut c).unwrap(),
        DdlStatement::AlterTable(AlterTable { name: "t", operation: AlterTableOperation::RenameTo("u") })
    );

    for with_column in [false, true] {
        let mut items = vec![(kw(Keyword::Alter), "ALTER"), (kw(Keyword::Table), "TABLE"), (TokenKind::Identifier, "t"), (kw(Keyword::Rename), "RENAME")];
        if with_column {
            items.push((kw(Keyword::Column), "COLUMN"));
        }
        items.extend([(TokenKind::Identifier, "a"), (kw(Keyword::To), "TO"), (TokenKind::Identifier, "b")]);
        let t = toks(items);
        let mut c = 0;
        assert_eq!(
            DdlStatement::build(&t, &mut c).unwrap(),
            DdlStatement::AlterTable(AlterTable { name: "t", operation: AlterTableOperation::RenameColumn { old: "a", new: "b" } })
        );
    }

    let bad = toks(vec![(kw(Keyword::Alter), "ALTER"), (kw(Keyword::Table), "TABLE"), (TokenKind::Identifier, "t"), (kw(Keyword::Rename), "RENAME"), (kw(Keyword::Column), "COLUMN"), (kw(Keyword::To), "TO"), (TokenKind::Identifier, "u")]);
    let mut c = 0;
    assert_eq!(DdlStatement::build(&bad, &mut c), Err(ParserError::SyntaxError(5, 5)));

    let bad = toks(vec![(kw(Keyword::Alter), "ALTER"), (kw(Keyword::Table), "TABLE"), (TokenKind::Identifier, "t"), (kw(Keyword::SetKw), "SET")]);
    let mut c = 0;
    assert_eq!(DdlStatement::build(&bad, &mut c), Err(ParserError::SyntaxError(3, 3)));
}

#[test]
fn delete_single_table() {
    // DELETE FROM users WHERE id = 1
    let t = toks(vec![
        (kw(Keyword::Delete), "DELETE"),
        (kw(Keyword::From), "FROM"),
        (TokenKind::Identifier, "users"),
        (kw(Keyword::Where), "WHERE"),
        (TokenKind::Identifier, "id"),
        (TokenKind::Equal, "="),
        (TokenKind::Number, "1"),
    ]);
    let mut c = 0;
    let d = DeleteStatement::new(&t, &mut c).unwrap();
    assert_eq!(c, 7);
    assert_eq!(d.delete_tables, None);
    assert_eq!(d.from, table("users"));
    assert_eq!(d.conditions, Some(bin(BinaryOperator::Equal, field("id"), Expr::Number("1"))));
}

#[test]
fn delete_with_join_filter() {
    // DELETE u FROM users u JOIN orders o ON u.id = o.user_id
    let t = toks(vec![
        (kw(Keyword::Delete), "DELETE"),
        (TokenKind::Identifier, "u"),
        (kw(Keyword::From), "FROM"),
        (TokenKind::Identifier, "users"),
        (TokenKind::Identifier, "u"),
        (kw(Keyword::Join), "JOIN"),
        (TokenKind::Identifier, "orders"),
        (TokenKind::Identifier, "o"),
        (kw(Keyword::On), "ON"),
        (TokenKind::Identifier, "u"),
        (TokenKind::Dot, "."),
        (TokenKind::Identifier, "id"),
        (TokenKind::Equal, "="),
        (TokenKind::Identifier, "o"),
        (TokenKind::Dot, "."),
        (TokenKind::Identifier, "user_id"),
    ]);
    let mut c = 0;
    let d = DeleteStatement::new(&t, &mut c).unwrap();
    assert_eq!(c, 16);
    let targets = d.delete_tables.unwrap();
    assert_eq!(targets.len(), 1);
    assert_eq!(targets[0], Table::Name(Alias { name: None, value: field("u") }));
    assert_eq!(
        d.from,
        From::InnerJoin {
            left: Box::new(From::Table(Table::Name(Alias { name: Some("u"), value: field("users") }))),
            right: Box::new(From::Table(Table::Name(Alias { name: Some("o"), value: field("orders") }))),
            condition: bin(
                BinaryOperator::Equal,
                Expr::Field(Field { prefix: Some("u"), name: "id" }),
                Expr::Field(Field { prefix: Some("o"), name: "user_id" }),
            ),
        }
    );
    assert_eq!(d.conditions, None);
}

#[test]
fn delete_multiple_tables() {
    // DELETE u, o FROM users u JOIN orders o USING (id)
    let t = toks(vec![
        (kw(Keyword::Delete), "DELETE"),
        (TokenKind::Identifier, "u"),
        (TokenKind::Comma, ","),
        (TokenKind::Identifier, "o"),
        (kw(Keyword::From), "FROM"),
        (TokenKind::Identifier, "users"),
        (TokenKind::Identifier, "u"),
        (kw(Keyword::Join), "JOIN"),
        (TokenKind::Identifier, "orders"),
        (TokenKind::Identifier, "o"),
        (kw(Keyword::Using), "USING"),
        (TokenKind::LeftParen, "("),
        (TokenKind::Identifier, "id"),
        (TokenKind::RightParen, ")"),
    ]);
    let mut c = 0;
    let d = DeleteStatement::new(&t, &mut c).unwrap();
    let targets = d.delete_tables.unwrap();
    assert_eq!(targets.len(), 2);
    assert_eq!(targets[1], Table::Name(Alias { name: None, value: field("o") }));

    let t = toks(vec![(kw(Keyword::Delete), "DELETE"), (TokenKind::Identifier, "users")]);
    let mut c = 0;
    assert_eq!(DeleteStatement::new(&t, &mut c).map(|_| ()), Err(ParserError::SyntaxError(2, 2)));
}

#[test]
fn update_with_assignments_and_condition() {
    let t = toks(vec![
        (kw(Keyword::Update), "UPDATE"),
        (TokenKind::Identifier, "t"),
        (kw(Keyword::SetKw), "SET"),
        (TokenKind::Identifier, "a"),
        (TokenKind::Equal, "="),
        (TokenKind::Number, "1"),
        (TokenKind::Comma, ","),
        (TokenKind::Identifier, "b"),
        (TokenKind::Equal, "="),
        (TokenKind::Number, "2"),
        (kw(Keyword::Where), "WHERE"),
        (TokenKind::Identifier, "c"),
        (TokenKind::Equal, "="),
        (TokenKind::Number, "3"),
    ]);
    let mut c = 0;
    let u = UpdateStatement::new(&t, &mut c).unwrap();
    assert_eq!(c, 14);
    assert_eq!(u.table, table("t"));
    assert_eq!(u.assignments.len(), 2);
    assert_eq!(u.assignments[1], bin(BinaryOperator::Equal, field("b"), Expr::Number("2")));
    assert_eq!(u.where_statement, Some(bin(BinaryOperator::Equal, field("c"), Expr::Number("3"))));

    let t = toks(vec![(kw(Keyword::Update), "UPDATE"), (TokenKind::Identifier, "t"), (TokenKind::Identifier, "x"), (TokenKind::Identifier, "a")]);
    let mut c = 0;
    assert_eq!(UpdateStatement::new(&t, &mut c).map(|_| ()), Err(ParserError::SyntaxError(3, 3)));
}

#[test]
fn insert_rows() {
    let t = toks(vec![
        (kw(Keyword::Insert), "INSERT"),
        (kw(Keyword::Into), "INTO"),
        (TokenKind::Identifier, "t"),
        (TokenKind::LeftParen, "("),
        (TokenKind::Identifier, "a"),
        (TokenKind::Comma, ","),
        (TokenKind::Identifier, "b"),
        (TokenKind::RightParen, ")"),
        (kw(Keyword::Values), "VALUES"),
        (TokenKind::LeftParen, "("),
        (TokenKind::Number, "1"),
        (TokenKind::Comma, ","),
        (TokenKind::Number, "2"),
        (TokenKind::RightParen, ")"),
        (TokenKind::Comma, ","),
        (TokenKind::LeftParen, "("),
        (TokenKind::Number, "3"),
        (TokenKind::Comma, ","),
        (TokenKind::Number, "4"),
        (TokenKind::RightParen, ")"),
    ]);
    let mut c = 0;
    assert_eq!(
        InsertStatement::new(&t, &mut c).unwrap(),
        InsertStatement {
            table: "t",
            columns: Some(vec!["a", "b"]),
            values: vec![vec![Expr::Number("1"), Expr::Number("2")], vec![Expr::Number("3"), Expr::Number("4")]],
        }
    );
    assert_eq!(c, 20);

    let t = toks(vec![(kw(Keyword::Insert), "INSERT"), (kw(Keyword::Into), "INTO"), (TokenKind::Identifier, "t"), (kw(Keyword::Values), "VALUES"), (TokenKind::LeftParen, "("), (TokenKind::Number, "1")]);
    let mut c = 0;
    assert_eq!(InsertStatement::new(&t, &mut c), Err(ParserError::SyntaxError(6, 6)));
}

#[test]
fn script_of_statements() {
    let t = toks(vec![
        (TokenKind::Delimiter, ";"),
        (kw(Keyword::Select), "SELECT"),
        (TokenKind::Identifier, "a"),
        (kw(Keyword::From), "FROM"),
        (TokenKind::Identifier, "t"),
        (TokenKind::Delimiter, ";"),
        (kw(Keyword::Drop), "DROP"),
        (kw(Keyword::Table), "TABLE"),
        (TokenKind::Identifier, "t"),
        (TokenKind::Delimiter, ";"),
    ]);
    let mut c = 0;
    let s = Statement::new(&t, &mut c).unwrap();
    assert_eq!(c, 10);
    assert_eq!(s.list.len(), 2);
    assert_eq!(s.list[0], StatementInner::Query(Query::Select(select_a_from("t"))));
    assert_eq!(
        s.list[1],
        StatementInner::Ddl(DdlStatement::DropTable(DropTable { if_exists: false, names: vec!["t"], cascade: false }))
    );

    let t = toks(vec![(TokenKind::Delimiter, ";"), (TokenKind::Delimiter, ";")]);
    let mut c = 0;
    assert_eq!(Statement::new(&t, &mut c), Err(ParserError::SyntaxError(2, 2)));

    let t = toks(vec![(TokenKind::Identifier, "oops")]);
    let mut c = 0;
    assert_eq!(Statement::new(&t, &mut c), Err(ParserError::SyntaxError(0, 0)));
}

#[test]
fn with_query() {
    let t = toks(vec![
        (kw(Keyword::With), "WITH"),
        (TokenKind::Identifier, "x"),
        (kw(Keyword::As), "AS"),
        (TokenKind::LeftParen, "("),
        (kw(Keyword::Select), "SELECT"),
        (TokenKind::Identifier, "a"),
        (kw(Keyword::From), "FROM"),
        (TokenKind::Identifier, "t"),
        (TokenKind::RightParen, ")"),
        (kw(Keyword::Select), "SELECT"),
        (TokenKind::Identifier, "a"),
        (kw(Keyword::From), "FROM"),
        (TokenKind::Identifier, "x"),
    ]);
    let mut c = 0;
    let s = StatementInner::new(&t, &mut c).unwrap();
    match s {
        StatementInner::Query(Query::Cte { ctes, query }) => {
            assert_eq!(ctes.len(), 1);
            assert_eq!(ctes[0].name, "x");
            assert_eq!(*ctes[0].query.select, select_a_from("t"));
            assert_eq!(*query, Query::Select(select_a_from("x")));
        },
        other => panic!("unexpected {:?}", other),
    }
}

#[test]
fn keywords_are_matched_without_regard_to_case() {
    let map = KeywordMap::new().unwrap();
    assert_eq!(map.match_keyword("select"), Some(Keyword::Select));
    assert_eq!(map.match_keyword("SeLeCt"), Some(Keyword::Select));
    assert_eq!(map.match_keyword("SET"), Some(Keyword::SetKw));
    assert_eq!(map.match_keyword("natural"), Some(Keyword::Natural));
    assert_eq!(map.match_keyword("selects"), None);
    assert_eq!(map.match_keyword("xselect"), None);
    assert_eq!(map.match_keyword("users"), None);
    assert_eq!(map.match_keyword(""), None);
}

#[test]
fn every_keyword_spelling_is_recognised() {
    let map = KeywordMap::new().unwrap();
    let mut i = 0;
    while let Some(k) = Keyword::variant_at(i) {
        assert_eq!(map.match_keyword(k.as_str()), Some(k));
        assert_eq!(map.match_keyword(&k.as_str().to_lowercase()), Some(k));
        i += 1;
    }
    assert_eq!(i, sql_ast::keyword::KEYWORD_COUNT);
}

#[test]
fn no_two_keywords_share_a_spelling_up_to_case() {
    let mut seen: Vec<String> = Vec::new();
    let mut i = 0;
    while let Some(k) = Keyword::variant_at(i) {
        let lower = k.as_str().to_lowercase();
        assert!(!seen.contains(&lower), "{} spelled twice", lower);
        seen.push(lower);
        i += 1;
    }
    assert_eq!(seen.len(), sql_ast::keyword::KEYWORD_COUNT);
}

#[test]
fn column_keyword_changes_no_alter_table_result() {
    let ops: Vec<Vec<(TokenKind, &'static str)>> = vec![
        vec![(kw(Keyword::Add), "ADD"), (TokenKind::Identifier, "c"), (TokenKind::Identifier, "INT"), (kw(Keyword::Not), "NOT"), (kw(Keyword::Null), "NULL")],
        vec![(kw(Keyword::Drop), "DROP"), (TokenKind::Identifier, "c"), (kw(Keyword::Restrict), "RESTRICT")],
        vec![(kw(Keyword::Rename), "RENAME"), (TokenKind::Identifier, "a"), (kw(Keyword::To), "TO"), (TokenKind::Identifier, "b")],
        vec![(kw(Keyword::Add), "ADD"), (TokenKind::Comma, ",")],
        vec![(kw(Keyword::Rename), "RENAME"), (TokenKind::Identifier, "a"), (TokenKind::Identifier, "b")],
    ];
    for op in ops {
        let head = vec![(kw(Keyword::Alter), "ALTER"), (kw(Keyword::Table), "TABLE"), (TokenKind::Identifier, "t")];
        let mut plain = head.clone();
        plain.extend(op.iter().cloned());
        let mut with_column = head.clone();
        with_column.push(op[0].clone());
        with_column.push((kw(Keyword::Column), "COLUMN"));
        with_column.extend(op[1..].iter().cloned());
        let (t1, t2) = (toks(plain), toks(with_column));
        let (mut c1, mut c2) = (0, 0);
        let r1 = DdlStatement::build(&t1, &mut c1);
        let r2 = DdlStatement::build(&t2, &mut c2);
        assert_eq!(c2, c1 + 1);
        match r1 {
            Ok(x) => assert_eq!(r2, Ok(x)),
            Err(_) => assert!(r2.is_err()),
        }
    }
}

#[test]
fn expression_stops_where_no_infix_operator_follows() {
    let t = toks(vec![
        (TokenKind::Number, "1"),
        (TokenKind::Plus, "+"),
        (TokenKind::Number, "2"),
        (TokenKind::Multiply, "*"),
        (TokenKind::Number, "3"),
        (TokenKind::Comma, ","),
        (TokenKind::Number, "4"),
    ]);
    let parser = PrattParser::<Expr, BinaryOperator, UnaryOperator>::new();
    let mut cursor = 0;
    let e = parser.parse_expression::<PrimaryExpr, InfixOps, PrefixOps, ExprBuild>(&t, &mut cursor).unwrap();
    assert_eq!(
        e,
        bin(BinaryOperator::Plus, Expr::Number("1"), bin(BinaryOperator::Multiply, Expr::Number("2"), Expr::Number("3")))
    );
    assert_eq!(cursor, 5);
    assert_eq!(<InfixOps as OpParser<BinaryOperator>>::try_parse_op(&t, &cursor), None);
}

#[test]
fn keyword_map_is_always_built() {
    assert!(KeywordMap::new().is_ok());
}
