use umber_lang::nodes::Node;
use umber_lang::parser::Parser;
use umber_lang::position::Position;
use umber_lang::token::{Token, TokenType};
use umber_lang::values::value_type::{ValueType, ValueTypes};

fn t(tt: TokenType) -> Token {
    Token::new_without_value(tt, Position::empty(), Position::empty())
}

fn v(tt: TokenType, value: &str) -> Token {
    Token::new_with_value(tt, value.to_string(), Position::empty(), Position::empty())
}

fn kw(value: &str) -> Token {
    v(TokenType::Keyword, value)
}

fn parser(tokens: Vec<Token>) -> Parser {
    Parser::new(tokens, vec![], vec![], vec![], vec![], vec![])
}

/// A string token read from the file `file`.
fn name_in(value: &str, file: &str) -> Token {
    let p = Position::new(file.to_string());
    Token::new_with_value(TokenType::String, value.to_string(), p.clone(), p)
}

/// `{ const C: u64 = 5; }`
fn lib_tokens() -> Vec<Token> {
    vec![
        t(TokenType::Lcurly),
        kw("const"),
        v(TokenType::Identifier, "C"),
        t(TokenType::Colon),
        kw("u64"),
        t(TokenType::Eq),
        v(TokenType::U64, "5"),
        t(TokenType::Newline),
        t(TokenType::Rcurly),
        t(TokenType::Eof),
    ]
}

/// `{ import "a"; import "b"; }`, read from `src/main.ub`.
fn two_imports(a: &str, b: &str) -> Vec<Token> {
    vec![
        t(TokenType::Lcurly),
        kw("import"),
        name_in(a, "src/main.ub"),
        t(TokenType::Newline),
        kw("import"),
        name_in(b, "src/main.ub"),
        t(TokenType::Newline),
        t(TokenType::Rcurly),
        t(TokenType::Eof),
    ]
}

fn statements_of(root: Node) -> Vec<Node> {
    match root {
        Node::Statements { statements, .. } => statements,
        other => panic!("unexpected {:?}", other),
    }
}

/// `{ fun main(): void { let x: u64 = 1 + 2; return x; }; }`
fn function_tokens() -> Vec<Token> {
    vec![
        t(TokenType::Lcurly),
        kw("fun"),
        v(TokenType::Identifier, "main"),
        t(TokenType::Lparen),
        t(TokenType::Rparen),
        t(TokenType::Colon),
        kw("void"),
        t(TokenType::Lcurly),
        kw("let"),
        v(TokenType::Identifier, "x"),
        t(TokenType::Colon),
        kw("u64"),
        t(TokenType::Eq),
        v(TokenType::U64, "1"),
        t(TokenType::Plus),
        v(TokenType::U64, "2"),
        t(TokenType::Newline),
        kw("return"),
        v(TokenType::Identifier, "x"),
        t(TokenType::Newline),
        t(TokenType::Rcurly),
        t(TokenType::Newline),
        t(TokenType::Rcurly),
        t(TokenType::Eof),
    ]
}

#[test]
fn a_function_with_a_declaration_and_a_return() {
    let mut p = parser(function_tokens());
    let root = p.parse().unwrap();
    let statements = match root {
        Node::Statements { statements, .. } => statements,
        other => panic!("unexpected {:?}", other),
    };
    assert_eq!(statements.len(), 1);
    match &statements[0] {
        Node::FunctionDef { name, args, return_type, body, .. } => {
            assert_eq!(name, "main");
            assert!(args.is_empty());
            assert_eq!(return_type.value_type(), ValueTypes::Void);
            match &**body {
                Node::Statements { statements, .. } => {
                    assert_eq!(statements.len(), 2);
                    match &statements[0] {
                        Node::VarDeclaration(d) => {
                            assert_eq!(d.var_name(), "x");
                            assert!(!d.is_mutable());
                            match d.value_node() {
                                Node::BinOp { op, .. } => assert_eq!(op.token_type(), TokenType::Plus),
                                other => panic!("unexpected {:?}", other),
                            }
                        },
                        other => panic!("unexpected {:?}", other),
                    }
                    match &statements[1] {
                        Node::Return { value: Some(v), .. } => match &**v {
                            Node::VarAccess(a) => assert_eq!(a.var_name(), "x"),
                            other => panic!("unexpected {:?}", other),
                        },
                        other => panic!("unexpected {:?}", other),
                    }
                },
                other => panic!("unexpected {:?}", other),
            }
        },
        other => panic!("unexpected {:?}", other),
    }
}

#[test]
fn a_statement_at_the_top_level_must_be_a_definition() {
    // `{ 1; }`
    let mut p = parser(vec![
        t(TokenType::Lcurly),
        v(TokenType::U64, "1"),
        t(TokenType::Newline),
        t(TokenType::Rcurly),
        t(TokenType::Eof),
    ]);
    let err = p.parse().unwrap_err();
    assert_eq!(err.details(), "Expected statement or expression!");
}

#[test]
fn the_file_must_end_after_the_block() {
    // `{ const C: u64 = 3; } 4`
    let mut p = parser(vec![
        t(TokenType::Lcurly),
        kw("const"),
        v(TokenType::Identifier, "C"),
        t(TokenType::Colon),
        kw("u64"),
        t(TokenType::Eq),
        v(TokenType::U64, "3"),
        t(TokenType::Newline),
        t(TokenType::Rcurly),
        v(TokenType::U64, "4"),
        t(TokenType::Eof),
    ]);
    let err = p.parse().unwrap_err();
    assert_eq!(err.details(), "Expected end of file!");
}

#[test]
fn a_macro_is_replaced_by_its_body() {
    // `{ macro TEN 10; const C: u64 = TEN; }`
    let mut p = parser(vec![
        t(TokenType::Lcurly),
        kw("macro"),
        v(TokenType::Identifier, "TEN"),
        v(TokenType::U64, "10"),
        t(TokenType::Newline),
        kw("const"),
        v(TokenType::Identifier, "C"),
        t(TokenType::Colon),
        kw("u64"),
        t(TokenType::Eq),
        v(TokenType::Identifier, "TEN"),
        t(TokenType::Newline),
        t(TokenType::Rcurly),
        t(TokenType::Eof),
    ]);
    let root = p.parse().unwrap();
    assert_eq!(p.macros().len(), 1);
    let statements = match root {
        Node::Statements { statements, .. } => statements,
        other => panic!("unexpected {:?}", other),
    };
    match &statements[1] {
        Node::ConstDef { name, value, .. } => {
            assert_eq!(name, "C");
            match &**value {
                Node::Number { token, .. } => assert_eq!(token.token_value().as_deref(), Some("10")),
                other => panic!("unexpected {:?}", other),
            }
        },
        other => panic!("unexpected {:?}", other),
    }
}

#[test]
fn a_module_is_imported_once() {
    let mut p = Parser::new(
        two_imports("lib.ub", "lib.ub"),
        vec![],
        vec![],
        vec![],
        vec![("src/lib.ub".to_string(), lib_tokens())],
        vec![],
    );
    let statements = statements_of(p.parse().unwrap());
    assert_eq!(p.already_included(), &vec!["src/lib.ub".to_string()]);
    assert!(matches!(statements[0], Node::Import { .. }));
    assert!(matches!(statements[1], Node::Ignored { .. }));
}

#[test]
fn a_module_is_found_next_to_the_file_first_then_in_the_include_directories() {
    let mut p = Parser::new(
        two_imports("lib.ub", "other.ub"),
        vec!["inc".to_string()],
        vec![],
        vec![],
        vec![
            ("inc/lib.ub".to_string(), lib_tokens()),
            ("src/lib.ub".to_string(), lib_tokens()),
            ("inc/other.ub".to_string(), lib_tokens()),
        ],
        vec![
            ("inc/lib.ub".to_string(), "file-1".to_string()),
            ("src/lib.ub".to_string(), "file-2".to_string()),
            ("inc/other.ub".to_string(), "file-3".to_string()),
        ],
    );
    let statements = statements_of(p.parse().unwrap());
    assert_eq!(p.already_included(), &vec!["src/lib.ub".to_string(), "inc/other.ub".to_string()]);
    assert!(matches!(statements[0], Node::Import { .. }));
    assert!(matches!(statements[1], Node::Import { .. }));
}

#[test]
fn one_file_under_two_paths_is_imported_once() {
    let mut p = Parser::new(
        two_imports("lib.ub", "link.ub"),
        vec![],
        vec![],
        vec![],
        vec![("src/lib.ub".to_string(), lib_tokens()), ("src/link.ub".to_string(), lib_tokens())],
        vec![("src/lib.ub".to_string(), "file-1".to_string()), ("src/link.ub".to_string(), "file-1".to_string())],
    );
    let statements = statements_of(p.parse().unwrap());
    assert_eq!(p.already_included(), &vec!["src/lib.ub".to_string()]);
    assert!(matches!(statements[1], Node::Ignored { .. }));
}

#[test]
fn two_files_of_the_same_name_in_different_places_are_both_imported() {
    let mut p = Parser::new(
        two_imports("lib.ub", "lib.ub"),
        vec![],
        vec![],
        vec![],
        vec![("src/lib.ub".to_string(), lib_tokens())],
        vec![("src/lib.ub".to_string(), "file-1".to_string()), ("inc/lib.ub".to_string(), "file-2".to_string())],
    );
    let statements = statements_of(p.parse().unwrap());
    assert!(matches!(statements[0], Node::Import { .. }));
    assert!(matches!(statements[1], Node::Ignored { .. }));
    let mut q = Parser::new(
        two_imports("lib.ub", "../inc/lib.ub"),
        vec![],
        vec![],
        vec![],
        vec![("src/lib.ub".to_string(), lib_tokens()), ("src/../inc/lib.ub".to_string(), lib_tokens())],
        vec![
            ("src/lib.ub".to_string(), "file-1".to_string()),
            ("src/../inc/lib.ub".to_string(), "file-2".to_string()),
        ],
    );
    let statements = statements_of(q.parse().unwrap());
    assert!(matches!(statements[0], Node::Import { .. }));
    assert!(matches!(statements[1], Node::Import { .. }));
    assert_eq!(q.already_included().len(), 2);
}

#[test]
fn an_unknown_module_is_an_error() {
    let main = vec![
        t(TokenType::Lcurly),
        kw("import"),
        name_in("nowhere", "src/main.ub"),
        t(TokenType::Newline),
        t(TokenType::Rcurly),
        t(TokenType::Eof),
    ];
    let mut p = parser(main);
    let err = p.parse().unwrap_err();
    assert_eq!(err.details(), "Module 'nowhere' not found!");
}

#[test]
fn calls_indexing_and_pointer_types() {
    // `{ fun f(a: u8*, b: struct S*mut): u64; }` declares; then a body
    // `{ fun g(): u64 { return f(a, b)[1]; }; }`
    let mut p = parser(vec![
        t(TokenType::Lcurly),
        kw("fun"),
        v(TokenType::Identifier, "f"),
        t(TokenType::Lparen),
        v(TokenType::Identifier, "a"),
        t(TokenType::Colon),
        kw("u8"),
        t(TokenType::Mul),
        t(TokenType::Comma),
        v(TokenType::Identifier, "b"),
        t(TokenType::Colon),
        kw("struct"),
        v(TokenType::Identifier, "S"),
        t(TokenType::Mul),
        kw("mut"),
        t(TokenType::Rparen),
        t(TokenType::Colon),
        kw("u64"),
        t(TokenType::Newline),
        kw("fun"),
        v(TokenType::Identifier, "g"),
        t(TokenType::Lparen),
        t(TokenType::Rparen),
        t(TokenType::Colon),
        kw("u64"),
        t(TokenType::Lcurly),
        kw("return"),
        v(TokenType::Identifier, "f"),
        t(TokenType::Lparen),
        v(TokenType::Identifier, "a"),
        t(TokenType::Comma),
        v(TokenType::Identifier, "b"),
        t(TokenType::Rparen),
        t(TokenType::Lsquare),
        v(TokenType::U64, "1"),
        t(TokenType::Rsquare),
        t(TokenType::Newline),
        t(TokenType::Rcurly),
        t(TokenType::Newline),
        t(TokenType::Rcurly),
        t(TokenType::Eof),
    ]);
    let root = p.parse().unwrap();
    let statements = match root {
        Node::Statements { statements, .. } => statements,
        other => panic!("unexpected {:?}", other),
    };
    match &statements[0] {
        Node::FunctionDecl { name, args, .. } => {
            assert_eq!(name, "f");
            assert_eq!(args.len(), 2);
            match &args[0].1 {
                ValueType::Pointer(p) => {
                    assert_eq!(p.pointee_type().value_type(), ValueTypes::U8);
                    assert!(!*p.is_mutable());
                },
                other => panic!("unexpected {:?}", other),
            }
            match &args[1].1 {
                ValueType::Pointer(p) => {
                    assert_eq!(p.pointee_type().value_type(), ValueTypes::Struct);
                    assert!(*p.is_mutable());
                },
                other => panic!("unexpected {:?}", other),
            }
        },
        other => panic!("unexpected {:?}", other),
    }
    match &statements[1] {
        Node::FunctionDef { body, .. } => match &**body {
            Node::Statements { statements, .. } => match &statements[0] {
                Node::Return { value: Some(v), .. } => match &**v {
                    Node::BinOp { left, op, .. } => {
                        assert_eq!(op.token_type(), TokenType::Offset);
                        match &**left {
                            Node::Call { name, args, .. } => {
                                assert_eq!(name, "f");
                                assert_eq!(args.len(), 2);
                            },
                            other => panic!("unexpected {:?}", other),
                        }
                    },
                    other => panic!("unexpected {:?}", other),
                },
                other => panic!("unexpected {:?}", other),
            },
            other => panic!("unexpected {:?}", other),
        },
        other => panic!("unexpected {:?}", other),
    }
}

#[test]
fn a_repeated_argument_name_is_an_error() {
    // `{ fun f(a: u8, a: u8): void; }`
    let mut p = parser(vec![
        t(TokenType::Lcurly),
        kw("fun"),
        v(TokenType::Identifier, "f"),
        t(TokenType::Lparen),
        v(TokenType::Identifier, "a"),
        t(TokenType::Colon),
        kw("u8"),
        t(TokenType::Comma),
        v(TokenType::Identifier, "a"),
        t(TokenType::Colon),
        kw("u8"),
        t(TokenType::Rparen),
        t(TokenType::Colon),
        kw("void"),
        t(TokenType::Newline),
        t(TokenType::Rcurly),
        t(TokenType::Eof),
    ]);
    let err = p.parse().unwrap_err();
    assert_eq!(err.details(), "Argument name 'a' was already declared!");
}

#[test]
fn subtraction_groups_to_the_left() {
    let mut tokens = function_tokens();
    // 1 + 2  becomes  8 - 3 - 1
    let at = tokens.iter().position(|k| k.token_type() == TokenType::Plus).unwrap();
    tokens.splice(at - 1..at + 2, vec![
        v(TokenType::U64, "8"),
        t(TokenType::Minus),
        v(TokenType::U64, "3"),
        t(TokenType::Minus),
        v(TokenType::U64, "1"),
    ]);
    let mut p = parser(tokens);
    let root = p.parse().unwrap();
    let value = match root {
        Node::Statements { statements, .. } => match &statements[0] {
            Node::FunctionDef { body, .. } => match &**body {
                Node::Statements { statements, .. } => match &statements[0] {
                    Node::VarDeclaration(d) => d.value_node().box_clone(),
                    other => panic!("unexpected {:?}", other),
                },
                other => panic!("unexpected {:?}", other),
            },
            other => panic!("unexpected {:?}", other),
        },
        other => panic!("unexpected {:?}", other),
    };
    match value {
        Node::BinOp { left, op, right } => {
            assert_eq!(op.token_type(), TokenType::Minus);
            match *right {
                Node::Number { token, .. } => assert_eq!(token.token_value().as_ref().unwrap(), "1"),
                other => panic!("unexpected {:?}", other),
            }
            match *left {
                Node::BinOp { left, op, right } => {
                    assert_eq!(op.token_type(), TokenType::Minus);
                    match (*left, *right) {
                        (Node::Number { token: a, .. }, Node::Number { token: b, .. }) => {
                            assert_eq!(a.token_value().as_ref().unwrap(), "8");
                            assert_eq!(b.token_value().as_ref().unwrap(), "3");
                        },
                        other => panic!("unexpected {:?}", other),
                    }
                },
                other => panic!("unexpected {:?}", other),
            }
        },
        other => panic!("unexpected {:?}", other),
    }
}
