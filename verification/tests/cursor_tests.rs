use rpc_router::cursor::TokenCursor;
use rpc_router::tokenizer::Token;

#[test]
fn capture_string_test() {
    let tokens = vec![Token::LParen, Token::raw_string("afsal"), Token::RParen];

    let mut cursor = TokenCursor::new(tokens.clone());
    cursor.next_token();
    let result = cursor
        .capture_string_until(vec![&Token::LParen], &Token::RParen)
        .unwrap();

    assert_eq!(result, "afsal".to_string())
}

#[test]
fn capture_string_test_nested() {
    let tokens = vec![
        Token::LParen,
        Token::LParen,
        Token::raw_string("afsal"),
        Token::RParen,
        Token::RParen,
    ];

    let mut cursor = TokenCursor::new(tokens.clone());
    cursor.next_token();
    let result = cursor
        .capture_string_until(vec![&Token::LParen], &Token::RParen)
        .unwrap();

    assert_eq!(result, "(afsal)")
}

#[test]
fn capture_character_test() {
    let tokens = vec![Token::RParen];

    let mut cursor = TokenCursor::new(tokens.clone());
    let result = cursor
        .capture_string_until(vec![&Token::LParen], &Token::RParen)
        .unwrap();
    assert_eq!(result, "".to_string())
}

#[test]
fn capture_empty_test() {
    let tokens = vec![];

    let mut cursor = TokenCursor::new(tokens.clone());
    let result = cursor.capture_string_until(vec![&Token::LParen], &Token::RParen);

    assert_eq!(result, None)
}

#[test]
fn test_capture_string_from() {
    let tokens = vec![Token::else_token(), Token::raw_string("foo")];

    let mut cursor = TokenCursor::new(tokens.clone());
    let result = cursor.capture_tail();

    assert_eq!(result, Some("foo".to_string()))
}

#[test]
fn capture_until_leaves_cursor_at_end_token() {
    let tokens = vec![Token::LParen, Token::raw_string("x"), Token::RParen];
    let mut cursor = TokenCursor::new(tokens);
    cursor.next_token();
    cursor.capture_string_until(vec![&Token::LParen], &Token::RParen);
    assert_eq!(cursor.index, 2);
}

#[test]
fn capture_until_and_skip_end_moves_past_end_token() {
    let tokens = vec![
        Token::LParen,
        Token::raw_string("x"),
        Token::RParen,
        Token::raw_string("rest"),
    ];
    let mut cursor = TokenCursor::new(tokens);
    cursor.next_token();
    let captured = cursor.capture_string_until_and_skip_end(vec![&Token::LParen], &Token::RParen);
    assert_eq!(captured, Some("x".to_string()));
    assert_eq!(cursor.index, 3);
}

#[test]
fn next_non_empty_token_skips_whitespace() {
    let tokens = vec![
        Token::Space,
        Token::NewLine,
        Token::raw_string("  \t"),
        Token::raw_string("word"),
    ];
    let mut cursor = TokenCursor::new(tokens);
    let token = cursor.next_non_empty_token();
    assert_eq!(token, Some(Token::raw_string("word")));
    assert_eq!(cursor.index, 4);
}

#[test]
fn next_non_empty_token_skips_empty_raw_strings() {
    let tokens = vec![Token::raw_string(""), Token::LParen];
    let mut cursor = TokenCursor::new(tokens);
    assert_eq!(cursor.next_non_empty_token(), Some(Token::LParen));
}

#[test]
fn index_of_last_end_token_sees_through_nesting() {
    let tokens = vec![
        Token::InterpolationStart,
        Token::LCurly,
        Token::raw_string("inner"),
        Token::RCurly,
        Token::RCurly,
    ];
    let mut cursor = TokenCursor::new(tokens);
    cursor.next_token();
    let found = cursor.index_of_last_end_token(
        vec![&Token::InterpolationStart, &Token::LCurly],
        &Token::RCurly,
    );
    assert_eq!(found, Some(4));
}

#[test]
fn index_of_last_end_token_without_end_is_none() {
    let tokens = vec![Token::LParen, Token::raw_string("x")];
    let mut cursor = TokenCursor::new(tokens);
    let found = cursor.index_of_last_end_token(vec![&Token::LParen], &Token::RParen);
    assert_eq!(found, None);
}

#[test]
fn peek_does_not_advance() {
    let tokens = vec![Token::Else];
    let mut cursor = TokenCursor::new(tokens);
    assert_eq!(cursor.peek(), Some(&Token::Else));
    assert_eq!(cursor.index, 0);
    assert_eq!(cursor.next_token(), Some(Token::Else));
    assert_eq!(cursor.index, 1);
    assert_eq!(cursor.next_token(), None);
}

#[test]
fn token_text_forms() {
    assert_eq!(Token::LParen.text(), "(");
    assert_eq!(Token::RParen.text(), ")");
    assert_eq!(Token::LCurly.text(), "{");
    assert_eq!(Token::RCurly.text(), "}");
    assert_eq!(Token::InterpolationStart.text(), "${");
    assert_eq!(Token::Space.text(), " ");
    assert_eq!(Token::NewLine.text(), "\n");
    assert_eq!(Token::else_token().text(), "else");
    assert_eq!(Token::raw_string("abc").text(), "abc");
}

#[test]
fn token_whitespace_classification() {
    assert!(Token::Space.is_whitespace());
    assert!(Token::NewLine.is_whitespace());
    assert!(Token::raw_string(" \t\r\n").is_whitespace());
    assert!(Token::raw_string("").is_whitespace());
    assert!(!Token::raw_string(" x ").is_whitespace());
    assert!(!Token::LParen.is_whitespace());
    assert!(!Token::else_token().is_whitespace());
}
