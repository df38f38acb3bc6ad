use sql_ast::common::alias::Alias;
use sql_ast::common::expr::{BinaryOp, BinaryOperator, Expr, Field};
use sql_ast::common::from::{From, JoinType, Table};
use sql_ast::keyword::Keyword;
use sql_ast::token::{TokenKind, TokenTable};

fn make_table<'a>(source: &'a str, tokens: Vec<(TokenKind, usize, usize)>) -> TokenTable<'a> {
    let mut table = TokenTable::with_source(source);
    for (kind, start, end) in tokens {
        table.push(kind, &source[start..=end]);
    }
    table
}

#[test]
fn test_simple_table() {
    let tokens = make_table("users", vec![(TokenKind::Identifier, 0, 4)]);
    let mut cursor = 0;
    let result = From::parse(&tokens, &mut cursor).unwrap();
    assert_eq!(cursor, 1);
    assert_eq!(
        result,
        From::Table(Table::Name(Alias {
            name: None,
            value: Expr::Field(Field {
                prefix: None,
                name: "users",
            }),
        }))
    );
}

#[test]
fn test_table_with_alias() {
    let tokens = make_table(
        "users u",
        vec![(TokenKind::Identifier, 0, 4), (TokenKind::Identifier, 6, 6)],
    );
    let mut cursor = 0;
    let result = From::parse(&tokens, &mut cursor).unwrap();
    assert_eq!(cursor, 2);
    assert_eq!(
        result,
        From::Table(Table::Name(Alias {
            name: Some("u"),
            value: Expr::Field(Field {
                prefix: None,
                name: "users",
            }),
        }))
    );
}

#[test]
fn test_inner_join() {
    let tokens = make_table(
        "users JOIN orders ON user_id = user_id",
        vec![
            (TokenKind::Identifier, 0, 4),
            (TokenKind::Keyword(Keyword::Join), 6, 9),
            (TokenKind::Identifier, 11, 16),
            (TokenKind::Keyword(Keyword::On), 18, 19),
            (TokenKind::Identifier, 21, 27),
            (TokenKind::Equal, 29, 29),
            (TokenKind::Identifier, 31, 37),
        ],
    );
    let mut cursor = 0;
    let result = From::parse(&tokens, &mut cursor).unwrap();

    let expected_condition = Expr::BinaryOp(Box::new(BinaryOp {
        op: BinaryOperator::Equal,
        left: Expr::Field(Field {
            prefix: None,
            name: "user_id",
        }),
        right: Expr::Field(Field {
            prefix: None,
            name: "user_id",
        }),
    }));

    assert_eq!(result, From::InnerJoin {
        left: Box::new(From::Table(Table::Name(Alias { name: None, value: Expr::Field(Field { prefix: None, name: "users" }) }))),
        right: Box::new(From::Table(Table::Name(Alias { name: None, value: Expr::Field(Field { prefix: None, name: "orders" }) }))),
        condition: expected_condition,
    });
}

#[test]
fn test_multiple_joins() {
    let tokens = make_table(
        "users JOIN orders ON user_id = user_id JOIN order_items ON order_id = order_id",
        vec![
            (TokenKind::Identifier, 0, 4),
            (TokenKind::Keyword(Keyword::Join), 6, 9),
            (TokenKind::Identifier, 11, 16),
            (TokenKind::Keyword(Keyword::On), 18, 19),
            (TokenKind::Identifier, 21, 27),
            (TokenKind::Equal, 29, 29),
            (TokenKind::Identifier, 31, 37),
            (TokenKind::Keyword(Keyword::Join), 39, 42),
            (TokenKind::Identifier, 44, 54),
            (TokenKind::Keyword(Keyword::On), 56, 57),
            (TokenKind::Identifier, 59, 66),
            (TokenKind::Equal, 68, 68),
            (TokenKind::Identifier, 70, 77),
        ],
    );
    let mut cursor = 0;
    let result = From::parse(&tokens, &mut cursor).unwrap();
    assert_eq!(result, From::InnerJoin {
        left: Box::new(From::InnerJoin {
            left: Box::new(From::Table(Table::Name(Alias { name: None, value: Expr::Field(Field { prefix: None, name: "users" }) }))),
            right: Box::new(From::Table(Table::Name(Alias { name: None, value: Expr::Field(Field { prefix: None, name: "orders" }) }))),
            condition: Expr::BinaryOp(Box::new(
                BinaryOp { op: BinaryOperator::Equal, left: Expr::Field(Field { prefix: None, name: "user_id" }), right: Expr::Field(Field { prefix: None, name: "user_id" }) },
            ))
        }),
        right: Box::new(From::Table(Table::Name(Alias { name: None, value: Expr::Field(Field { prefix: None, name: "order_items" }) }))),
        condition: Expr::BinaryOp(Box::new(
            BinaryOp {op: BinaryOperator::Equal, left: Expr::Field(Field { prefix: None, name: "order_id" }), right: Expr::Field(Field { prefix: None, name: "order_id" })}
        ))
    });
}

#[test]
fn test_cross_join() {
    let tokens = make_table(
        "u CROSS JOIN o",
        vec![
            (TokenKind::Identifier, 0, 0),
            (TokenKind::Keyword(Keyword::Cross), 2, 6),
            (TokenKind::Keyword(Keyword::Join), 8, 11),
            (TokenKind::Identifier, 13, 13),
        ],
    );
    let mut cursor = 0;
    let result = From::parse(&tokens, &mut cursor).unwrap();
    assert_eq!(
        result,
        From::CrossJoin {
            left: Box::new(From::Table(Table::Name(Alias {
                name: None,
                value: Expr::Field(Field {
                    prefix: None,
                    name: "u",
                }),
            }))),
            right: Box::new(From::Table(Table::Name(Alias {
                name: None,
                value: Expr::Field(Field {
                    prefix: None,
                    name: "o",
                }),
            }))),
        }
    );
}

#[test]
fn test_table_with_prefix() {
    let tokens = make_table(
        "users.id",
        vec![
            (TokenKind::Identifier, 0, 4),
            (TokenKind::Dot, 5, 5),
            (TokenKind::Identifier, 6, 7),
        ],
    );
    let mut cursor = 0;
    let result = From::parse(&tokens, &mut cursor).unwrap();

    assert_eq!(
        result,
        From::Table(Table::Name(Alias {
            name: None,
            value: Expr::Field(Field {
                prefix: Some("users"),
                name: "id"
            })
        }))
    );
}

#[test]
fn test_natural_join() {
    let tokens = make_table(
        "users NATURAL JOIN orders",
        vec![
            (TokenKind::Identifier, 0, 4),
            (TokenKind::Keyword(Keyword::Natural), 6, 12),
            (TokenKind::Keyword(Keyword::Join), 14, 17),
            (TokenKind::Identifier, 19, 24),
        ],
    );
    let mut cursor = 0;
    let result = From::parse(&tokens, &mut cursor).unwrap();
    assert_eq!(result, From::NaturalJoin {
        left: Box::new(From::Table(Table::Name(Alias { name: None, value: Expr::Field(Field { prefix: None, name: "users" }) }))),
        right: Box::new(From::Table(Table::Name(Alias { name: None, value: Expr::Field(Field { prefix: None, name: "orders" }) }))),
        join_type: JoinType::InnerJoin,
    });
}

#[test]
fn test_natural_left_join() {
    let tokens = make_table(
        "users NATURAL LEFT JOIN orders",
        vec![
            (TokenKind::Identifier, 0, 4),
            (TokenKind::Keyword(Keyword::Natural), 6, 12),
            (TokenKind::Keyword(Keyword::Left), 14, 17),
            (TokenKind::Keyword(Keyword::Join), 19, 22),
            (TokenKind::Identifier, 24, 29),
        ],
    );
    let mut cursor = 0;
    let result = From::parse(&tokens, &mut cursor).unwrap();
    assert_eq!(result, From::NaturalJoin {
        left: Box::new(From::Table(Table::Name(Alias { name: None, value: Expr::Field(Field { prefix: None, name: "users" }) }))),
        right: Box::new(From::Table(Table::Name(Alias { name: None, value: Expr::Field(Field { prefix: None, name: "orders" }) }))),
        join_type: JoinType::LeftJoin,
    });
}

#[test]
fn test_natural_right_join() {
    let tokens = make_table(
        "users NATURAL RIGHT JOIN orders",
        vec![
            (TokenKind::Identifier, 0, 4),
            (TokenKind::Keyword(Keyword::Natural), 6, 12),
            (TokenKind::Keyword(Keyword::Right), 14, 18),
            (TokenKind::Keyword(Keyword::Join), 20, 23),
            (TokenKind::Identifier, 25, 30),
        ],
    );
    let mut cursor = 0;
    let result = From::parse(&tokens, &mut cursor).unwrap();
    assert_eq!(result, From::NaturalJoin {
        left: Box::new(From::Table(Table::Name(Alias { name: None, value: Expr::Field(Field { prefix: None, name: "users" }) }))),
        right: Box::new(From::Table(Table::Name(Alias { name: None, value: Expr::Field(Field { prefix: None, name: "orders" }) }))),
        join_type: JoinType::RightJoin,
    });
}

#[test]
fn test_natural_full_join() {
    let tokens = make_table(
        "users NATURAL FULL JOIN orders",
        vec![
            (TokenKind::Identifier, 0, 4),
            (TokenKind::Keyword(Keyword::Natural), 6, 12),
            (TokenKind::Keyword(Keyword::Full), 14, 17),
            (TokenKind::Keyword(Keyword::Join), 19, 22),
            (TokenKind::Identifier, 24, 29),
        ],
    );
    let mut cursor = 0;
    let result = From::parse(&tokens, &mut cursor).unwrap();
    assert_eq!(result, From::NaturalJoin {
        left: Box::new(From::Table(Table::Name(Alias { name: None, value: Expr::Field(Field { prefix: None, name: "users" }) }))),
        right: Box::new(From::Table(Table::Name(Alias { name: None, value: Expr::Field(Field { prefix: None, name: "orders" }) }))),
        join_type: JoinType::FullJoin,
    });
}

#[test]
fn test_natural_join_chain() {
    // Joins without a condition (NATURAL, CROSS) chain to the right: the
    // right operand of a join takes the joins that follow it.
    let tokens = make_table(
        "a NATURAL JOIN b NATURAL JOIN c",
        vec![
            (TokenKind::Identifier, 0, 0),
            (TokenKind::Keyword(Keyword::Natural), 2, 8),
            (TokenKind::Keyword(Keyword::Join), 10, 13),
            (TokenKind::Identifier, 15, 15),
            (TokenKind::Keyword(Keyword::Natural), 17, 23),
            (TokenKind::Keyword(Keyword::Join), 25, 28),
            (TokenKind::Identifier, 30, 30),
        ],
    );
    let mut cursor = 0;
    let result = From::parse(&tokens, &mut cursor).unwrap();
    assert_eq!(result, From::NaturalJoin {
        left: Box::new(From::Table(Table::Name(Alias { name: None, value: Expr::Field(Field { prefix: None, name: "a" }) }))),
        right: Box::new(From::NaturalJoin {
            left: Box::new(From::Table(Table::Name(Alias { name: None, value: Expr::Field(Field { prefix: None, name: "b" }) }))),
            right: Box::new(From::Table(Table::Name(Alias { name: None, value: Expr::Field(Field { prefix: None, name: "c" }) }))),
            join_type: JoinType::InnerJoin,
        }),
        join_type: JoinType::InnerJoin,
    });
}

#[test]
fn test_join_using() {
    let tokens = make_table(
        "users JOIN orders USING (user_id)",
        vec![
            (TokenKind::Identifier, 0, 4),
            (TokenKind::Keyword(Keyword::Join), 6, 9),
            (TokenKind::Identifier, 11, 16),
            (TokenKind::Keyword(Keyword::Using), 18, 22),
            (TokenKind::LeftParen, 24, 24),
            (TokenKind::Identifier, 25, 31),
            (TokenKind::RightParen, 32, 32),
        ],
    );
    let mut cursor = 0;
    let result = From::parse(&tokens, &mut cursor).unwrap();
    assert_eq!(result, From::JoinUsing {
        left: Box::new(From::Table(Table::Name(Alias { name: None, value: Expr::Field(Field { prefix: None, name: "users" }) }))),
        right: Box::new(From::Table(Table::Name(Alias { name: None, value: Expr::Field(Field { prefix: None, name: "orders" }) }))),
        join_type: JoinType::InnerJoin,
        using: vec!["user_id"],
    });
}

#[test]
fn test_join_using_multiple_columns() {
    let tokens = make_table(
        "users JOIN orders USING (user_id, order_id)",
        vec![
            (TokenKind::Identifier, 0, 4),
            (TokenKind::Keyword(Keyword::Join), 6, 9),
            (TokenKind::Identifier, 11, 16),
            (TokenKind::Keyword(Keyword::Using), 18, 22),
            (TokenKind::LeftParen, 24, 24),
            (TokenKind::Identifier, 25, 31),
            (TokenKind::Comma, 32, 32),
            (TokenKind::Identifier, 34, 41),
            (TokenKind::RightParen, 42, 42),
        ],
    );
    let mut cursor = 0;
    let result = From::parse(&tokens, &mut cursor).unwrap();
    assert_eq!(result, From::JoinUsing {
        left: Box::new(From::Table(Table::Name(Alias { name: None, value: Expr::Field(Field { prefix: None, name: "users" }) }))),
        right: Box::new(From::Table(Table::Name(Alias { name: None, value: Expr::Field(Field { prefix: None, name: "orders" }) }))),
        join_type: JoinType::InnerJoin,
        using: vec!["user_id", "order_id"],
    });
}

#[test]
fn test_left_join_using() {
    let tokens = make_table(
        "users LEFT JOIN orders USING (id)",
        vec![
            (TokenKind::Identifier, 0, 4),
            (TokenKind::Keyword(Keyword::Left), 6, 9),
            (TokenKind::Keyword(Keyword::Join), 11, 14),
            (TokenKind::Identifier, 16, 21),
            (TokenKind::Keyword(Keyword::Using), 23, 27),
            (TokenKind::LeftParen, 29, 29),
            (TokenKind::Identifier, 30, 31),
            (TokenKind::RightParen, 32, 32),
        ],
    );
    let mut cursor = 0;
    let result = From::parse(&tokens, &mut cursor).unwrap();
    assert_eq!(result, From::JoinUsing {
        left: Box::new(From::Table(Table::Name(Alias { name: None, value: Expr::Field(Field { prefix: None, name: "users" }) }))),
        right: Box::new(From::Table(Table::Name(Alias { name: None, value: Expr::Field(Field { prefix: None, name: "orders" }) }))),
        join_type: JoinType::LeftJoin,
        using: vec!["id"],
    });
}

#[test]
fn test_right_join_using() {
    let tokens = make_table(
        "users RIGHT OUTER JOIN orders USING (id)",
        vec![
            (TokenKind::Identifier, 0, 4),
            (TokenKind::Keyword(Keyword::Right), 6, 10),
            (TokenKind::Keyword(Keyword::Outer), 12, 16),
            (TokenKind::Keyword(Keyword::Join), 18, 21),
            (TokenKind::Identifier, 23, 28),
            (TokenKind::Keyword(Keyword::Using), 30, 34),
            (TokenKind::LeftParen, 36, 36),
            (TokenKind::Identifier, 37, 38),
            (TokenKind::RightParen, 39, 39),
        ],
    );
    let mut cursor = 0;
    let result = From::parse(&tokens, &mut cursor).unwrap();
    assert_eq!(result, From::JoinUsing {
        left: Box::new(From::Table(Table::Name(Alias { name: None, value: Expr::Field(Field { prefix: None, name: "users" }) }))),
        right: Box::new(From::Table(Table::Name(Alias { name: None, value: Expr::Field(Field { prefix: None, name: "orders" }) }))),
        join_type: JoinType::RightJoin,
        using: vec!["id"],
    });
}

#[test]
fn test_join_using_empty_list_errors() {
    let tokens = make_table(
        "a JOIN b USING ()",
        vec![
            (TokenKind::Identifier, 0, 0),
            (TokenKind::Keyword(Keyword::Join), 2, 5),
            (TokenKind::Identifier, 7, 7),
            (TokenKind::Keyword(Keyword::Using), 9, 13),
            (TokenKind::LeftParen, 15, 15),
            (TokenKind::RightParen, 16, 16),
        ],
    );
    let mut cursor = 0;
    assert!(From::parse(&tokens, &mut cursor).is_err());
}
